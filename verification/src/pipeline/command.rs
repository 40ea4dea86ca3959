use vstd::prelude::*;
use crate::params::StageParameters;
use crate::shader::{Access, Shader};

verus! {

/// A compute pipeline: one shader, entered at its uniform entry point, with
/// the layout that the shader declares.
#[derive(Clone, Copy, Debug, PartialEq, Eq, Structural)]
pub struct ComputePipeline {
    pub shader: Shader,
}

/// Binds one image of the frame to one slot of a descriptor set.
#[derive(Clone, Copy, Debug, PartialEq, Eq, Structural)]
pub struct WriteDescriptorSet {
    /// The slot.
    pub binding: u32,
    /// Position of the image among the images of the frame.
    pub image_view: usize,
}

impl WriteDescriptorSet {
    /// A write of image `image_view` to slot `binding`.
    pub fn image_view(binding: u32, image_view: usize) -> (write: WriteDescriptorSet)
        ensures
            write == (WriteDescriptorSet { binding, image_view }),
    {
        WriteDescriptorSet { binding, image_view }
    }
}

/// The images bound to the slots of one descriptor set of a pipeline.
#[derive(Debug, PartialEq, Eq)]
pub struct DescriptorSet {
    /// The pipeline whose layout the set follows.
    pub pipeline: ComputePipeline,
    /// Index of the set in the pipeline's layout.
    pub set: u32,
    /// The bindings, in the order in which they were given.
    pub writes: Vec<WriteDescriptorSet>,
}

/// A descriptor set as a mathematical value.
pub struct DescriptorSetView {
    pub pipeline: ComputePipeline,
    pub set: u32,
    pub writes: Seq<WriteDescriptorSet>,
}

impl View for DescriptorSet {
    type V = DescriptorSetView;

    open spec fn view(&self) -> DescriptorSetView {
        DescriptorSetView { pipeline: self.pipeline, set: self.set, writes: self.writes@ }
    }
}

/// One command of a command buffer.
#[derive(Debug, PartialEq, Eq)]
pub enum Command {
    /// Copies staging buffer `buffer` of the frame into image `image`.
    CopyBufferToImage { buffer: usize, image: usize },
    /// Copies image `image` of the frame into staging buffer `buffer`.
    CopyImageToBuffer { image: usize, buffer: usize },
    /// Makes `pipeline` the current compute pipeline.
    BindPipelineCompute { pipeline: ComputePipeline },
    /// Sets the inline parameters of `pipeline`, starting at byte `offset`
    /// of the block that the pipeline's layout declares.
    PushConstants { pipeline: ComputePipeline, offset: u32, constants: StageParameters },
    /// Binds `descriptor_set` as set number `first_set` for compute work.
    BindDescriptorSets { first_set: u32, descriptor_set: DescriptorSet },
    /// Runs the current pipeline on a grid of work groups.
    Dispatch { group_counts: [u32; 3] },
}

/// A command as a mathematical value.
pub enum CommandView {
    CopyBufferToImage { buffer: usize, image: usize },
    CopyImageToBuffer { image: usize, buffer: usize },
    BindPipelineCompute { pipeline: ComputePipeline },
    PushConstants { pipeline: ComputePipeline, offset: u32, constants: StageParameters },
    BindDescriptorSets { first_set: u32, descriptor_set: DescriptorSetView },
    Dispatch { group_counts: [u32; 3] },
}

impl View for Command {
    type V = CommandView;

    open spec fn view(&self) -> CommandView {
        match *self {
            Command::CopyBufferToImage { buffer, image } => CommandView::CopyBufferToImage {
                buffer,
                image,
            },
            Command::CopyImageToBuffer { image, buffer } => CommandView::CopyImageToBuffer {
                image,
                buffer,
            },
            Command::BindPipelineCompute { pipeline } => CommandView::BindPipelineCompute {
                pipeline,
            },
            Command::PushConstants { pipeline, offset, constants } => CommandView::PushConstants {
                pipeline,
                offset,
                constants,
            },
            Command::BindDescriptorSets { first_set, descriptor_set } => {
                CommandView::BindDescriptorSets { first_set, descriptor_set: descriptor_set@ }
            },
            Command::Dispatch { group_counts } => CommandView::Dispatch { group_counts },
        }
    }
}

/// The commands of one command buffer, in program order.
pub struct CommandSequence {
    commands: Vec<Command>,
}

impl View for CommandSequence {
    type V = Seq<CommandView>;

    closed spec fn view(&self) -> Seq<CommandView> {
        Seq::new(self.commands@.len(), |i: int| self.commands@[i]@)
    }
}

impl CommandSequence {
    /// A command buffer without commands.
    pub fn new() -> (sequence: CommandSequence)
        ensures
            sequence@ == Seq::<CommandView>::empty(),
    {
        CommandSequence { commands: Vec::new() }
    }

    /// Records `command` after the commands recorded so far.
    pub fn record(&mut self, command: Command)
        ensures
            final(self)@ == old(self)@.push(command@),
    {
        self.commands.push(command);
        assert(self@ =~= old(self)@.push(command@));
    }

    /// Number of commands recorded.
    pub fn len(&self) -> (n: usize)
        ensures
            n == self@.len(),
    {
        self.commands.len()
    }

    /// The `i`-th command in program order.
    pub fn get(&self, i: usize) -> (command: &Command)
        requires
            i < self@.len(),
        ensures
            command@ == self@[i as int],
    {
        &self.commands[i]
    }
}

/// What a command buffer under construction has set up so far.
pub struct RecordingState {
    /// The compute pipeline that is bound, if any.
    pub pipeline: Option<ComputePipeline>,
    /// The parameter block that was pushed last.
    pub constants: StageParameters,
    /// The descriptor set that is bound, if any.
    pub descriptor_set: Option<DescriptorSetView>,
    /// The images whose contents an earlier command has produced.
    pub written: Set<usize>,
    /// Whether every command so far found what it reads already produced.
    pub sound: bool,
}

impl Shader {
    /// The parameter block is the one that the shader declares. The
    /// quantizing shader declares none and ignores whatever is set.
    pub open spec fn spec_accepts(self, constants: StageParameters) -> bool {
        match self {
            Shader::Finishing1 => constants is Normalize,
            Shader::Finishing2 => constants is Demosaic,
            Shader::Finishing3 => constants is ColorCorrect,
            Shader::Finishing4 => true,
        }
    }
}

/// The bindings of `set` cover the slots that `shader` declares, slot `i`
/// at position `i`.
pub open spec fn covers_bindings(shader: Shader, set: DescriptorSetView) -> bool {
    &&& set.writes.len() == shader.spec_binding_count()
    &&& forall|i: int| 0 <= i < set.writes.len() ==> (#[trigger] set.writes[i]).binding == i
}

/// Every image that `shader` reads through `set` is in `written`.
pub open spec fn inputs_written(shader: Shader, set: DescriptorSetView, written: Set<usize>) -> bool {
    forall|i: int|
        0 <= i < set.writes.len() && shader.spec_access(i).reads() ==> written.contains(
            (#[trigger] set.writes[i]).image_view,
        )
}

/// The images that `shader` writes through `set`.
pub open spec fn outputs(shader: Shader, set: DescriptorSetView) -> Set<usize> {
    Set::new(
        |image: usize|
            exists|i: int|
                0 <= i < set.writes.len() && shader.spec_access(i).writes() && (
                #[trigger] set.writes[i]).image_view == image,
    )
}

/// A dispatch in `state` runs a bound pipeline with its own descriptor set
/// and parameter block, on inputs that are all written.
pub open spec fn dispatch_sound(state: RecordingState) -> bool {
    &&& state.pipeline matches Some(pipeline)
    &&& state.descriptor_set matches Some(set)
    &&& set.pipeline == pipeline
    &&& set.set == 0
    &&& covers_bindings(pipeline.shader, set)
    &&& pipeline.shader.spec_accepts(state.constants)
    &&& inputs_written(pipeline.shader, set, state.written)
}

/// The state before any command, with the images in `written` already produced.
pub open spec fn initial_state(written: Set<usize>) -> RecordingState {
    RecordingState {
        pipeline: None,
        constants: StageParameters::Absent,
        descriptor_set: None,
        written,
        sound: true,
    }
}

/// The state after one more command.
pub open spec fn state_step(state: RecordingState, command: CommandView) -> RecordingState {
    match command {
        CommandView::CopyBufferToImage { buffer, image } => RecordingState {
            written: state.written.insert(image),
            ..state
        },
        CommandView::CopyImageToBuffer { image, buffer } => RecordingState {
            sound: state.sound && state.written.contains(image),
            ..state
        },
        CommandView::BindPipelineCompute { pipeline } => RecordingState {
            pipeline: Some(pipeline),
            ..state
        },
        CommandView::PushConstants { pipeline, offset, constants } => RecordingState {
            constants,
            sound: state.sound && offset == 0 && state.pipeline == Some(pipeline),
            ..state
        },
        CommandView::BindDescriptorSets { first_set, descriptor_set } => RecordingState {
            descriptor_set: Some(descriptor_set),
            sound: state.sound && first_set == 0,
            ..state
        },
        CommandView::Dispatch { group_counts } => if dispatch_sound(state) {
            RecordingState {
                written: state.written.union(
                    outputs(state.pipeline->0.shader, state.descriptor_set->0),
                ),
                ..state
            }
        } else {
            RecordingState { sound: false, ..state }
        },
    }
}

/// The state after the commands of `commands`, run in order from a state
/// in which the images in `written` are already produced.
pub open spec fn state_after(written: Set<usize>, commands: Seq<CommandView>) -> RecordingState
    decreases commands.len(),
{
    if commands.len() == 0 {
        initial_state(written)
    } else {
        state_step(state_after(written, commands.drop_last()), commands.last())
    }
}

/// Every command of `commands` reads only what an earlier command of the
/// sequence, or of the work completed before it, has written.
pub open spec fn respects_dependencies(written: Set<usize>, commands: Seq<CommandView>) -> bool {
    state_after(written, commands).sound
}

/// Recording one more command advances the state by one step.
pub proof fn lemma_state_after_push(
    written: Set<usize>,
    commands: Seq<CommandView>,
    command: CommandView,
)
    ensures
        state_after(written, commands.push(command)) == state_step(
            state_after(written, commands),
            command,
        ),
{
    assert(commands.push(command).drop_last() =~= commands);
}

/// The images that `shader` writes through the first `upto` bindings of `set`.
pub open spec fn outputs_upto(shader: Shader, set: DescriptorSetView, upto: int) -> Set<usize> {
    Set::new(
        |image: usize|
            exists|i: int|
                0 <= i < upto && i < set.writes.len() && shader.spec_access(i).writes() && (
                #[trigger] set.writes[i]).image_view == image,
    )
}

impl Shader {
    /// Tests whether the parameter block is the one that the shader declares.
    pub fn accepts(&self, constants: &StageParameters) -> (accepted: bool)
        ensures
            accepted == self.spec_accepts(*constants),
    {
        match self {
            Shader::Finishing1 => match constants {
                StageParameters::Normalize(_) => true,
                _ => false,
            },
            Shader::Finishing2 => match constants {
                StageParameters::Demosaic(_) => true,
                _ => false,
            },
            Shader::Finishing3 => match constants {
                StageParameters::ColorCorrect(_) => true,
                _ => false,
            },
            Shader::Finishing4 => true,
        }
    }
}

/// Tests whether `image` is among `images`.
fn is_written(images: &Vec<usize>, image: usize) -> (found: bool)
    ensures
        found == images@.to_set().contains(image),
{
    let mut i: usize = 0;
    while i < images.len()
        invariant
            i <= images.len(),
            forall|k: int| 0 <= k < i ==> images@[k] != image,
        decreases images.len() - i,
    {
        if images[i] == image {
            return true;
        }
        i += 1;
    }
    false
}

impl DescriptorSet {
    /// Tests whether the bindings cover the slots that `shader` declares,
    /// slot `i` at position `i`.
    pub fn covers(&self, shader: Shader) -> (covered: bool)
        ensures
            covered == covers_bindings(shader, self@),
    {
        let count: usize = self.writes.len();
        if count as u64 != shader.binding_count() as u64 {
            return false;
        }
        let mut i: usize = 0;
        while i < count
            invariant
                i <= count,
                count == self.writes@.len(),
                count <= 2,
                forall|k: int| 0 <= k < i ==> (#[trigger] self.writes@[k]).binding == k,
            decreases count - i,
        {
            if self.writes[i].binding as u64 != i as u64 {
                return false;
            }
            i += 1;
        }
        true
    }

    /// Tests whether every image that `shader` reads through the set is
    /// among `written`.
    fn reads_written(&self, shader: Shader, written: &Vec<usize>) -> (ready: bool)
        requires
            covers_bindings(shader, self@),
        ensures
            ready == inputs_written(shader, self@, written@.to_set()),
    {
        let count: usize = self.writes.len();
        let mut i: usize = 0;
        while i < count
            invariant
                i <= count,
                count == self.writes@.len(),
                covers_bindings(shader, self@),
                forall|k: int|
                    0 <= k < i && shader.spec_access(k).reads() ==> written@.to_set().contains(
                        (#[trigger] self.writes@[k]).image_view,
                    ),
            decreases count - i,
        {
            let reads = match shader.access(i as u32) {
                Access::Write => false,
                _ => true,
            };
            if reads && !is_written(written, self.writes[i].image_view) {
                return false;
            }
            i += 1;
        }
        true
    }

    /// Adds the images that `shader` writes through the set to `written`.
    fn add_outputs(&self, shader: Shader, written: &mut Vec<usize>)
        requires
            covers_bindings(shader, self@),
        ensures
            final(written)@.to_set() == old(written)@.to_set().union(outputs(shader, self@)),
    {
        let count: usize = self.writes.len();
        let mut i: usize = 0;
        assert(outputs_upto(shader, self@, 0) =~= Set::<usize>::empty());
        while i < count
            invariant
                i <= count,
                count == self.writes@.len(),
                covers_bindings(shader, self@),
                written@.to_set() =~= old(written)@.to_set().union(
                    outputs_upto(shader, self@, i as int),
                ),
            decreases count - i,
        {
            let writes = match shader.access(i as u32) {
                Access::Read => false,
                _ => true,
            };
            let image: usize = self.writes[i].image_view;
            if writes {
                proof {
                    written@.lemma_push_to_set_commute(image);
                    assert(outputs_upto(shader, self@, i + 1) =~= outputs_upto(
                        shader,
                        self@,
                        i as int,
                    ).insert(image)) by {
                        assert(self@.writes[i as int].image_view == image);
                    }
                }
                written.push(image);
            } else {
                assert(outputs_upto(shader, self@, i + 1) =~= outputs_upto(
                    shader,
                    self@,
                    i as int,
                ));
            }
            i += 1;
        }
        assert(outputs_upto(shader, self@, count as int) =~= outputs(shader, self@));
    }
}

/// The descriptor set that the command at `position` binds, if `position`
/// is given.
pub open spec fn set_bound_at(commands: Seq<CommandView>, position: Option<usize>) -> Option<
    DescriptorSetView,
> {
    match position {
        Some(k) => match commands[k as int] {
            CommandView::BindDescriptorSets { first_set, descriptor_set } => Some(descriptor_set),
            _ => None,
        },
        None => None,
    }
}

impl CommandSequence {
    /// Tests the commands in program order: whether every copy and every
    /// dispatch reads only images that are among `written` or that an
    /// earlier command of the sequence has written, every dispatch runs a
    /// bound pipeline with its own descriptor set and parameter block, and
    /// parameters and descriptor sets are bound from offset and set zero.
    pub fn check_dependencies(&self, written: Vec<usize>) -> (sound: bool)
        ensures
            sound == respects_dependencies(written@.to_set(), self@),
    {
        let ghost before = written@.to_set();
        let mut produced = written;
        let mut pipeline: Option<ComputePipeline> = None;
        let mut constants = StageParameters::Absent;
        let mut bound: Option<usize> = None;
        let mut sound = true;
        let mut i: usize = 0;
        while i < self.commands.len()
            invariant
                i <= self.commands@.len(),
                self@.len() == self.commands@.len(),
                bound matches Some(k) ==> k < i && self@[k as int] is BindDescriptorSets,
                state_after(before, self@.take(i as int)) == (RecordingState {
                    pipeline,
                    constants,
                    descriptor_set: set_bound_at(self@, bound),
                    written: produced@.to_set(),
                    sound,
                }),
            decreases self.commands@.len() - i,
        {
            proof {
                assert(self@.take(i + 1) =~= self@.take(i as int).push(self@[i as int]));
                lemma_state_after_push(before, self@.take(i as int), self@[i as int]);
            }
            match &self.commands[i] {
                Command::CopyBufferToImage { buffer, image } => {
                    proof {
                        produced@.lemma_push_to_set_commute(*image);
                    }
                    produced.push(*image);
                },
                Command::CopyImageToBuffer { image, buffer } => {
                    let found = is_written(&produced, *image);
                    sound = sound && found;
                },
                Command::BindPipelineCompute { pipeline: next } => {
                    pipeline = Some(*next);
                },
                Command::PushConstants { pipeline: owner, offset, constants: block } => {
                    let owned = match pipeline {
                        Some(current) => current == *owner,
                        None => false,
                    };
                    sound = sound && *offset == 0 && owned;
                    constants = *block;
                },
                Command::BindDescriptorSets { first_set, descriptor_set } => {
                    sound = sound && *first_set == 0;
                    bound = Some(i);
                },
                Command::Dispatch { group_counts } => {
                    let ready = match (pipeline, bound) {
                        (Some(current), Some(k)) => match &self.commands[k] {
                            Command::BindDescriptorSets { first_set, descriptor_set } => {
                                if descriptor_set.pipeline == current && descriptor_set.set == 0
                                    && descriptor_set.covers(current.shader)
                                    && current.shader.accepts(&constants)
                                    && descriptor_set.reads_written(current.shader, &produced) {
                                    descriptor_set.add_outputs(current.shader, &mut produced);
                                    true
                                } else {
                                    false
                                }
                            },
                            _ => false,
                        },
                        _ => false,
                    };
                    if !ready {
                        sound = false;
                    }
                },
            }
            i += 1;
        }
        assert(self@.take(i as int) =~= self@);
        sound
    }
}

} // verus!
