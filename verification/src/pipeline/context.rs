use vstd::prelude::*;
use crate::error::PipelineError;

verus! {

/// What one queue family of a physical device can do.
#[derive(Clone, Copy, Debug, PartialEq, Eq, Structural)]
pub struct QueueFamily {
    pub graphics: bool,
    pub compute: bool,
    pub transfer: bool,
}

/// Optional shader capabilities: arithmetic on 16-bit integers and on 16-bit floats.
#[derive(Clone, Copy, Debug, PartialEq, Eq, Structural)]
pub struct DeviceFeatures {
    pub shader_int16: bool,
    pub shader_float16: bool,
}

impl DeviceFeatures {
    /// Every capability that `self` asks for is one that `other` offers.
    pub open spec fn spec_within(self, other: DeviceFeatures) -> bool {
        &&& self.shader_int16 ==> other.shader_int16
        &&& self.shader_float16 ==> other.shader_float16
    }

    /// Tests that `other` offers every capability that `self` asks for.
    pub fn within(&self, other: &DeviceFeatures) -> (b: bool)
        ensures
            b == self.spec_within(*other),
    {
        (!self.shader_int16 || other.shader_int16) && (!self.shader_float16
            || other.shader_float16)
    }

    /// The capabilities that the finishing shaders are compiled against.
    pub fn finishing() -> (f: DeviceFeatures)
        ensures
            f == (DeviceFeatures { shader_int16: true, shader_float16: true }),
    {
        DeviceFeatures { shader_int16: true, shader_float16: true }
    }
}

/// A physical device as the driver reports it: its queue families in the
/// driver's order and the optional capabilities it supports.
pub struct PhysicalDevice {
    pub queue_families: Vec<QueueFamily>,
    pub supported: DeviceFeatures,
}

/// `index` is the first queue family of `families` that can run compute work.
pub open spec fn is_first_compute_family(families: Seq<QueueFamily>, index: int) -> bool {
    &&& 0 <= index < families.len()
    &&& families[index].compute
    &&& forall|k: int| 0 <= k < index ==> !(#[trigger] families[k]).compute
}

/// No queue family of `families` can run compute work.
pub open spec fn no_compute_family(families: Seq<QueueFamily>) -> bool {
    forall|k: int| 0 <= k < families.len() ==> !(#[trigger] families[k]).compute
}

/// `index` is the first device of `devices` with a compute queue family.
pub open spec fn is_first_compute_device(devices: Seq<PhysicalDevice>, index: int) -> bool {
    &&& 0 <= index < devices.len()
    &&& !no_compute_family(devices[index].queue_families@)
    &&& forall|k: int| 0 <= k < index ==> no_compute_family((#[trigger] devices[k]).queue_families@)
}

/// No device of `devices` has a compute queue family.
pub open spec fn no_compute_device(devices: Seq<PhysicalDevice>) -> bool {
    forall|k: int|
        0 <= k < devices.len() ==> no_compute_family((#[trigger] devices[k]).queue_families@)
}

/// Finds the first queue family that can run compute work.
pub fn find_compute_family(families: &Vec<QueueFamily>) -> (found: Option<usize>)
    ensures
        match found {
            Some(index) => is_first_compute_family(families@, index as int),
            None => no_compute_family(families@),
        },
{
    let mut index: usize = 0;
    while index < families.len()
        invariant
            index <= families.len(),
            forall|k: int| 0 <= k < index ==> !(#[trigger] families@[k]).compute,
        decreases families.len() - index,
    {
        if families[index].compute {
            return Some(index);
        }
        index += 1;
    }
    None
}

/// The device and queue that every frame of a process runs on.
///
/// A context is the outcome of one selection among the devices that the
/// driver reports. The device objects themselves live with the caller,
/// which creates one queue of the chosen family on the chosen device and
/// one allocator each for host-visible memory, descriptor sets and command
/// buffers, and keeps them for as long as the context is registered.
#[derive(Clone, Copy, Debug, PartialEq, Eq, Structural)]
pub struct PipelineContext {
    /// Position of the chosen device in the driver's enumeration.
    pub device_index: usize,
    /// Position of the chosen queue family among the device's families.
    pub queue_family_index: usize,
    /// The optional capabilities to enable on the device.
    pub enabled_features: DeviceFeatures,
}

impl PipelineContext {
    /// Selects the device and queue family to run on.
    ///
    /// The choice falls on the first device that has a queue family with
    /// compute capability, and on the first such family of that device.
    /// Without any such device the result is `DeviceNotFound`. If the chosen
    /// device lacks one of the `required` capabilities the result is
    /// `UnsupportedDevice`: the selection does not move on to a later device.
    pub fn new(devices: &Vec<PhysicalDevice>, required: DeviceFeatures) -> (made: Result<
        PipelineContext,
        PipelineError,
    >)
        ensures
            match made {
                Ok(context) => {
                    &&& is_first_compute_device(devices@, context.device_index as int)
                    &&& is_first_compute_family(
                        devices@[context.device_index as int].queue_families@,
                        context.queue_family_index as int,
                    )
                    &&& required.spec_within(devices@[context.device_index as int].supported)
                    &&& context.enabled_features == required
                },
                Err(PipelineError::DeviceNotFound) => no_compute_device(devices@),
                Err(PipelineError::UnsupportedDevice) => exists|d: int|
                    is_first_compute_device(devices@, d) && !required.spec_within(
                        devices@[d].supported,
                    ),
                Err(_) => false,
            },
    {
        let mut device_index: usize = 0;
        while device_index < devices.len()
            invariant
                device_index <= devices.len(),
                forall|k: int|
                    0 <= k < device_index ==> no_compute_family(
                        (#[trigger] devices@[k]).queue_families@,
                    ),
            decreases devices.len() - device_index,
        {
            let device = &devices[device_index];
            match find_compute_family(&device.queue_families) {
                Some(queue_family_index) => {
                    assert(is_first_compute_device(devices@, device_index as int));
                    if !required.within(&device.supported) {
                        return Err(PipelineError::UnsupportedDevice);
                    }
                    return Ok(
                        PipelineContext {
                            device_index,
                            queue_family_index,
                            enabled_features: required,
                        },
                    );
                },
                None => {},
            }
            device_index += 1;
        }
        Err(PipelineError::DeviceNotFound)
    }
}

} // verus!
