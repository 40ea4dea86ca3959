use vstd::prelude::*;

verus! {

/// The contexts of a process, each behind an opaque handle.
///
/// A handle is a positive number. It is given out once, stands for its
/// context until the context is released, and is never given out again: a
/// stale handle is recognised for as long as the registry lives.
pub struct ContextRegistry<T> {
    slots: Vec<Option<T>>,
    live: usize,
}

/// The largest number of handles that a registry can give out: every
/// handle is a positive `i64`, and their count fits a `usize`.
pub open spec fn handle_limit() -> int {
    if usize::MAX < i64::MAX {
        usize::MAX as int
    } else {
        i64::MAX as int
    }
}

/// The handles of `slots` that stand for a context.
pub open spec fn live_handles<T>(slots: Seq<Option<T>>) -> Set<i64> {
    Set::new(|handle: i64| 1 <= handle <= slots.len() && slots[handle - 1] is Some)
}

/// The contexts of `slots`, by handle.
pub open spec fn live_contexts<T>(slots: Seq<Option<T>>) -> Map<i64, T> {
    Map::new(
        |handle: i64| live_handles(slots).contains(handle),
        |handle: i64| slots[handle - 1]->0,
    )
}

/// Number of contexts among the first `upto` slots.
pub open spec fn count_live<T>(slots: Seq<Option<T>>, upto: int) -> int
    decreases upto,
{
    if upto <= 0 {
        0
    } else {
        count_live(slots, upto - 1) + if slots[upto - 1] is Some {
            1int
        } else {
            0int
        }
    }
}

/// The count of contexts depends only on the slots that are counted.
proof fn lemma_count_depends_on_prefix<T>(a: Seq<Option<T>>, b: Seq<Option<T>>, upto: int)
    requires
        0 <= upto <= a.len(),
        upto <= b.len(),
        forall|i: int| 0 <= i < upto ==> (a[i] is Some <==> b[i] is Some),
    ensures
        count_live(a, upto) == count_live(b, upto),
    decreases upto,
{
    if upto > 0 {
        lemma_count_depends_on_prefix(a, b, upto - 1);
    }
}

/// Emptying one full slot lowers the count by one; filling one empty slot
/// raises it by one.
proof fn lemma_count_after_change<T>(a: Seq<Option<T>>, b: Seq<Option<T>>, at: int, upto: int)
    requires
        0 <= at < upto <= a.len(),
        a.len() == b.len(),
        forall|i: int| 0 <= i < a.len() && i != at ==> (a[i] is Some <==> b[i] is Some),
        a[at] is Some,
        b[at] is None,
    ensures
        count_live(a, upto) == count_live(b, upto) + 1,
    decreases upto,
{
    if upto - 1 == at {
        lemma_count_depends_on_prefix(a, b, at);
    } else {
        lemma_count_after_change(a, b, at, upto - 1);
    }
}

/// The count never exceeds the number of slots counted.
proof fn lemma_count_bounds<T>(slots: Seq<Option<T>>, upto: int)
    requires
        0 <= upto <= slots.len(),
    ensures
        0 <= count_live(slots, upto) <= upto,
        count_live(slots, upto) == 0 ==> forall|i: int| 0 <= i < upto ==> slots[i] is None,
    decreases upto,
{
    if upto > 0 {
        lemma_count_bounds(slots, upto - 1);
    }
}

impl<T> ContextRegistry<T> {
    #[verifier::type_invariant]
    spec fn well_formed(self) -> bool {
        &&& self.slots@.len() <= handle_limit()
        &&& self.live == count_live(self.slots@, self.slots@.len() as int)
    }

    /// Number of handles given out so far.
    pub closed spec fn issued(self) -> int {
        self.slots@.len() as int
    }

    /// `handle` is one of the handles given out so far: a positive number
    /// that does not exceed their count. Zero is never a handle.
    pub open spec fn is_issued(self, handle: i64) -> bool {
        1 <= handle <= self.issued()
    }

    /// Every handle that stands for a context has been given out, so it is
    /// positive; and the contexts are no more than the handles given out.
    pub proof fn lemma_live_handles_are_issued(self)
        ensures
            0 <= self.issued(),
            0 <= self.spec_live_count() <= self.issued(),
            forall|handle: i64| #[trigger]
                self.contexts().contains_key(handle) ==> self.is_issued(handle),
    {
        lemma_count_bounds(self.slots@, self.slots@.len() as int);
    }

    /// The contexts that are registered and not released, by handle.
    pub closed spec fn contexts(self) -> Map<i64, T> {
        live_contexts(self.slots@)
    }

    /// Number of contexts that are registered and not released.
    pub closed spec fn spec_live_count(self) -> int {
        count_live(self.slots@, self.slots@.len() as int)
    }

    /// A registry without contexts.
    pub fn new() -> (registry: ContextRegistry<T>)
        ensures
            registry.issued() == 0,
            forall|handle: i64| !registry.is_issued(handle),
            registry.contexts() == Map::<i64, T>::empty(),
            registry.spec_live_count() == 0,
    {
        let registry = ContextRegistry { slots: Vec::new(), live: 0 };
        assert(registry.contexts() =~= Map::<i64, T>::empty());
        registry
    }

    /// Registers `context` and gives out its handle, the next positive
    /// number. All other handles keep their meaning. The context comes back
    /// as the error exactly if the handles have run out.
    pub fn register(&mut self, context: T) -> (handle: Result<i64, T>)
        ensures
            match handle {
                Ok(h) => {
                    &&& old(self).issued() < handle_limit()
                    &&& h >= 1
                    &&& h == old(self).issued() + 1
                    &&& final(self).issued() == h
                    &&& final(self).is_issued(h)
                    &&& !old(self).contexts().contains_key(h)
                    &&& final(self).contexts() == old(self).contexts().insert(h, context)
                    &&& final(self).spec_live_count() == old(self).spec_live_count() + 1
                },
                Err(returned) => {
                    &&& old(self).issued() >= handle_limit()
                    &&& returned == context
                    &&& final(self).issued() == old(self).issued()
                    &&& final(self).contexts() == old(self).contexts()
                    &&& final(self).spec_live_count() == old(self).spec_live_count()
                },
            },
    {
        proof {
            use_type_invariant(&*self);
        }
        let count: usize = self.slots.len();
        if count as u64 >= i64::MAX as u64 || count == usize::MAX {
            return Err(context);
        }
        let mut taken = ContextRegistry { slots: Vec::new(), live: 0 };
        core::mem::swap(self, &mut taken);
        let ContextRegistry { slots: mut slots, live } = taken;
        proof {
            lemma_count_bounds(slots@, count as int);
        }
        slots.push(Some(context));
        proof {
            lemma_count_depends_on_prefix(old(self).slots@, slots@, count as int);
        }
        *self = ContextRegistry { slots, live: live + 1 };
        assert(self.contexts() =~= old(self).contexts().insert((count + 1) as i64, context));
        Ok((count + 1) as i64)
    }

    /// Whether `handle` stands for a context.
    pub fn is_live(&self, handle: i64) -> (live: bool)
        ensures
            live == self.contexts().contains_key(handle),
            live ==> 1 <= handle <= self.issued(),
    {
        if handle < 1 || handle as u64 > self.slots.len() as u64 {
            return false;
        }
        self.slots[(handle - 1) as usize].is_some()
    }

    /// The context behind `handle`, if the handle stands for one.
    pub fn get(&self, handle: i64) -> (context: Option<&T>)
        ensures
            match context {
                Some(found) => {
                    &&& 1 <= handle <= self.issued()
                    &&& self.contexts().contains_key(handle)
                    &&& *found == self.contexts()[handle]
                },
                None => !self.contexts().contains_key(handle),
            },
    {
        if handle < 1 || handle as u64 > self.slots.len() as u64 {
            return None;
        }
        self.slots[(handle - 1) as usize].as_ref()
    }

    /// Releases the context behind `handle` and hands it to the caller. The
    /// handle is stale from then on. A handle that stands for no context
    /// releases nothing and leaves the registry as it is.
    pub fn release(&mut self, handle: i64) -> (context: Option<T>)
        ensures
            final(self).issued() == old(self).issued(),
            final(self).contexts() == old(self).contexts().remove(handle),
            !final(self).contexts().contains_key(handle),
            match context {
                Some(released) => {
                    &&& 1 <= handle <= old(self).issued()
                    &&& old(self).contexts().contains_key(handle)
                    &&& released == old(self).contexts()[handle]
                    &&& final(self).spec_live_count() == old(self).spec_live_count() - 1
                },
                None => {
                    &&& !old(self).contexts().contains_key(handle)
                    &&& final(self).spec_live_count() == old(self).spec_live_count()
                },
            },
    {
        proof {
            use_type_invariant(&*self);
        }
        if handle < 1 || handle as u64 > self.slots.len() as u64 {
            assert(self.contexts() =~= old(self).contexts().remove(handle));
            return None;
        }
        let position: usize = (handle - 1) as usize;
        if self.slots[position].is_none() {
            assert(self.contexts() =~= old(self).contexts().remove(handle));
            return None;
        }
        let mut emptied = ContextRegistry { slots: Vec::new(), live: 0 };
        core::mem::swap(self, &mut emptied);
        let ContextRegistry { slots: mut slots, live } = emptied;
        let mut released: Option<T> = None;
        slots.set_and_swap(position, &mut released);
        proof {
            lemma_count_after_change(
                old(self).slots@,
                slots@,
                position as int,
                slots@.len() as int,
            );
            lemma_count_bounds(slots@, slots@.len() as int);
        }
        *self = ContextRegistry { slots, live: live - 1 };
        assert(self.contexts() =~= old(self).contexts().remove(handle));
        released
    }

    /// Number of contexts that are registered and not released.
    pub fn live_count(&self) -> (count: usize)
        ensures
            count == self.spec_live_count(),
            count == 0 <==> self.contexts() == Map::<i64, T>::empty(),
    {
        proof {
            use_type_invariant(self);
            lemma_count_bounds(self.slots@, self.slots@.len() as int);
            if self.live == 0 {
                assert(self.contexts() =~= Map::<i64, T>::empty());
            } else {
                if self.contexts() == Map::<i64, T>::empty() {
                    lemma_no_context_counts_zero(self.slots@, self.slots@.len() as int);
                }
            }
        }
        self.live
    }
}

/// Slots without a live handle hold no context.
proof fn lemma_no_context_counts_zero<T>(slots: Seq<Option<T>>, upto: int)
    requires
        0 <= upto <= slots.len() <= i64::MAX,
        live_contexts(slots) == Map::<i64, T>::empty(),
    ensures
        count_live(slots, upto) == 0,
    decreases upto,
{
    if upto > 0 {
        lemma_no_context_counts_zero(slots, upto - 1);
        let handle = upto as i64;
        if slots[upto - 1] is Some {
            assert(live_handles(slots).contains(handle));
            assert(live_contexts(slots).contains_key(handle));
        }
    }
}

/// Releasing a context right after registering it leaves the registry
/// with the contexts and the count it had before; only the number of
/// handles given out has grown, so that the handle cannot come back.
pub proof fn lemma_register_then_release<T>(
    before: ContextRegistry<T>,
    registered: ContextRegistry<T>,
    released: ContextRegistry<T>,
    handle: i64,
    context: T,
)
    requires
        handle == before.issued() + 1,
        !before.contexts().contains_key(handle),
        registered.contexts() == before.contexts().insert(handle, context),
        registered.spec_live_count() == before.spec_live_count() + 1,
        registered.issued() == handle,
        released.contexts() == registered.contexts().remove(handle),
        released.spec_live_count() == registered.spec_live_count() - 1,
        released.issued() == registered.issued(),
    ensures
        handle >= 1,
        released.contexts() == before.contexts(),
        released.spec_live_count() == before.spec_live_count(),
        released.issued() == before.issued() + 1,
        !released.contexts().contains_key(handle),
{
    assert(released.contexts() =~= before.contexts());
}

} // verus!
