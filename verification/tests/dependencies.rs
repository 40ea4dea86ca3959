use raw_processor::params::{Stage1Parameters, Stage2Parameters, Stage3Parameters, StageParameters};
use raw_processor::pipeline::command::{
    Command, CommandSequence, ComputePipeline, DescriptorSet, WriteDescriptorSet,
};
use raw_processor::pipeline::context::{DeviceFeatures, PipelineContext};
use raw_processor::pipeline::raw_finishing::RawFinishing;
use raw_processor::shader::{Shader, ShaderModule, SPIRV_MAGIC};

fn pipeline(shader: Shader) -> ComputePipeline {
    ComputePipeline { shader }
}

fn set_of(shader: Shader, bindings: &[(u32, usize)]) -> DescriptorSet {
    DescriptorSet {
        pipeline: pipeline(shader),
        set: 0,
        writes: bindings
            .iter()
            .map(|(binding, image_view)| WriteDescriptorSet {
                binding: *binding,
                image_view: *image_view,
            })
            .collect(),
    }
}

fn normalize_block() -> StageParameters {
    StageParameters::Normalize(Stage1Parameters { white_level: 1023, black_level: 0 })
}

fn demosaic_block() -> StageParameters {
    StageParameters::Demosaic(Stage2Parameters { cfa: [0, 1, 2, 3] })
}

fn correct_block() -> StageParameters {
    StageParameters::ColorCorrect(Stage3Parameters::from_matrices(&[0; 9], &[0; 9]))
}

fn stage(shader: Shader, constants: StageParameters, images: &[usize]) -> Vec<Command> {
    let bindings: Vec<(u32, usize)> =
        images.iter().enumerate().map(|(slot, image)| (slot as u32, *image)).collect();
    let mut commands = vec![Command::BindPipelineCompute { pipeline: pipeline(shader) }];
    if constants != StageParameters::Absent {
        commands.push(Command::PushConstants { pipeline: pipeline(shader), offset: 0, constants });
    }
    commands.push(Command::BindDescriptorSets {
        first_set: 0,
        descriptor_set: set_of(shader, &bindings),
    });
    commands.push(Command::Dispatch { group_counts: [1, 1, 1] });
    commands
}

fn upload() -> Vec<Command> {
    vec![Command::CopyBufferToImage { buffer: 0, image: 0 }]
}

fn download() -> Vec<Command> {
    vec![Command::CopyImageToBuffer { image: 3, buffer: 1 }]
}

fn normalize() -> Vec<Command> {
    stage(Shader::Finishing1, normalize_block(), &[0, 1])
}

fn demosaic() -> Vec<Command> {
    stage(Shader::Finishing2, demosaic_block(), &[1, 2])
}

fn correct() -> Vec<Command> {
    stage(Shader::Finishing3, correct_block(), &[2])
}

fn quantize() -> Vec<Command> {
    stage(Shader::Finishing4, StageParameters::Absent, &[2, 3])
}

fn sound(parts: Vec<Vec<Command>>, written: Vec<usize>) -> bool {
    let mut sequence = CommandSequence::new();
    for command in parts.into_iter().flatten() {
        sequence.record(command);
    }
    sequence.check_dependencies(written)
}

#[test]
fn an_empty_command_buffer_is_sound() {
    assert!(sound(vec![], vec![]));
    assert!(sound(vec![], vec![0, 1, 2, 3]));
}

#[test]
fn the_stages_in_order_are_sound() {
    assert!(sound(vec![upload(), normalize(), demosaic(), correct(), quantize()], vec![]));
    assert!(sound(vec![upload(), normalize()], vec![]));
    assert!(sound(vec![demosaic(), correct()], vec![1]));
}

#[test]
fn a_stage_cannot_read_what_no_one_wrote() {
    assert!(!sound(vec![normalize()], vec![]));
    assert!(!sound(vec![upload(), demosaic()], vec![]));
    assert!(!sound(vec![upload(), demosaic(), normalize(), correct(), quantize()], vec![]));
    assert!(!sound(vec![upload(), normalize(), correct()], vec![]));
    assert!(!sound(vec![upload(), normalize(), quantize()], vec![]));
    assert!(!sound(vec![normalize(), demosaic(), correct(), quantize()], vec![]));
}

#[test]
fn colour_correction_rewrites_its_own_image() {
    assert!(sound(vec![correct()], vec![2]));
    assert!(!sound(vec![correct()], vec![]));
    assert!(sound(vec![correct(), correct(), quantize()], vec![2]));
}

#[test]
fn the_download_needs_the_quantized_image() {
    assert!(!sound(vec![download()], vec![]));
    assert!(!sound(vec![download()], vec![0, 1, 2]));
    assert!(sound(vec![download()], vec![3]));
    assert!(sound(
        vec![upload(), normalize(), demosaic(), correct(), quantize(), download()],
        vec![]
    ));
    assert!(!sound(
        vec![upload(), normalize(), demosaic(), correct(), download(), quantize()],
        vec![]
    ));
}

#[test]
fn a_dispatch_needs_a_pipeline_and_its_descriptor_set() {
    let dispatch = Command::Dispatch { group_counts: [1, 1, 1] };
    assert!(!sound(vec![vec![dispatch]], vec![0, 1, 2, 3]));

    let without_set = vec![
        Command::BindPipelineCompute { pipeline: pipeline(Shader::Finishing4) },
        Command::Dispatch { group_counts: [1, 1, 1] },
    ];
    assert!(!sound(vec![without_set], vec![2]));

    let without_pipeline = vec![
        Command::BindDescriptorSets {
            first_set: 0,
            descriptor_set: set_of(Shader::Finishing4, &[(0, 2), (1, 3)]),
        },
        Command::Dispatch { group_counts: [1, 1, 1] },
    ];
    assert!(!sound(vec![without_pipeline], vec![2]));

    let foreign_set = vec![
        Command::BindPipelineCompute { pipeline: pipeline(Shader::Finishing4) },
        Command::BindDescriptorSets {
            first_set: 0,
            descriptor_set: set_of(Shader::Finishing2, &[(0, 2), (1, 3)]),
        },
        Command::Dispatch { group_counts: [1, 1, 1] },
    ];
    assert!(!sound(vec![foreign_set], vec![2]));
    assert!(sound(vec![quantize()], vec![2]));
}

#[test]
fn a_descriptor_set_covers_the_declared_slots() {
    assert!(set_of(Shader::Finishing1, &[(0, 0), (1, 1)]).covers(Shader::Finishing1));
    assert!(set_of(Shader::Finishing3, &[(0, 2)]).covers(Shader::Finishing3));
    assert!(!set_of(Shader::Finishing1, &[(0, 0)]).covers(Shader::Finishing1));
    assert!(!set_of(Shader::Finishing1, &[(1, 0), (0, 1)]).covers(Shader::Finishing1));
    assert!(!set_of(Shader::Finishing1, &[(0, 0), (1, 1), (2, 2)]).covers(Shader::Finishing1));
    assert!(!set_of(Shader::Finishing3, &[(0, 2), (1, 3)]).covers(Shader::Finishing3));
    assert!(!set_of(Shader::Finishing3, &[]).covers(Shader::Finishing3));

    let short = vec![
        Command::BindPipelineCompute { pipeline: pipeline(Shader::Finishing4) },
        Command::BindDescriptorSets {
            first_set: 0,
            descriptor_set: set_of(Shader::Finishing4, &[(0, 2)]),
        },
        Command::Dispatch { group_counts: [1, 1, 1] },
    ];
    assert!(!sound(vec![short], vec![2]));
}

#[test]
fn a_stage_needs_its_own_parameter_block() {
    assert!(Shader::Finishing1.accepts(&normalize_block()));
    assert!(!Shader::Finishing1.accepts(&demosaic_block()));
    assert!(!Shader::Finishing1.accepts(&StageParameters::Absent));
    assert!(Shader::Finishing2.accepts(&demosaic_block()));
    assert!(!Shader::Finishing2.accepts(&correct_block()));
    assert!(Shader::Finishing3.accepts(&correct_block()));
    assert!(!Shader::Finishing3.accepts(&normalize_block()));
    assert!(Shader::Finishing4.accepts(&StageParameters::Absent));
    assert!(Shader::Finishing4.accepts(&correct_block()));

    assert!(!sound(vec![upload(), stage(Shader::Finishing1, demosaic_block(), &[0, 1])], vec![]));
    assert!(!sound(vec![upload(), stage(Shader::Finishing1, StageParameters::Absent, &[0, 1])], vec![]));
    assert!(sound(vec![upload(), stage(Shader::Finishing1, normalize_block(), &[0, 1])], vec![]));
}

#[test]
fn parameters_and_sets_start_at_zero() {
    let shifted = vec![
        Command::BindPipelineCompute { pipeline: pipeline(Shader::Finishing1) },
        Command::PushConstants {
            pipeline: pipeline(Shader::Finishing1),
            offset: 4,
            constants: normalize_block(),
        },
        Command::BindDescriptorSets {
            first_set: 0,
            descriptor_set: set_of(Shader::Finishing1, &[(0, 0), (1, 1)]),
        },
        Command::Dispatch { group_counts: [1, 1, 1] },
    ];
    assert!(!sound(vec![shifted], vec![0]));

    let second_set = vec![
        Command::BindPipelineCompute { pipeline: pipeline(Shader::Finishing4) },
        Command::BindDescriptorSets {
            first_set: 1,
            descriptor_set: set_of(Shader::Finishing4, &[(0, 2), (1, 3)]),
        },
        Command::Dispatch { group_counts: [1, 1, 1] },
    ];
    assert!(!sound(vec![second_set], vec![2]));
}

#[test]
fn parameters_belong_to_the_bound_pipeline() {
    let unbound = vec![Command::PushConstants {
        pipeline: pipeline(Shader::Finishing1),
        offset: 0,
        constants: normalize_block(),
    }];
    assert!(!sound(vec![unbound], vec![]));

    let foreign = vec![
        Command::BindPipelineCompute { pipeline: pipeline(Shader::Finishing2) },
        Command::PushConstants {
            pipeline: pipeline(Shader::Finishing1),
            offset: 0,
            constants: normalize_block(),
        },
    ];
    assert!(!sound(vec![foreign], vec![]));
}

#[test]
fn a_fault_is_not_forgotten() {
    assert!(!sound(vec![demosaic(), upload(), normalize(), demosaic()], vec![]));
}

#[test]
fn the_command_buffers_of_a_frame_are_sound() {
    let context = PipelineContext {
        device_index: 0,
        queue_family_index: 0,
        enabled_features: DeviceFeatures::finishing(),
    };
    let module = |shader| {
        let mut bytes = Vec::new();
        for word in [SPIRV_MAGIC, 0x0001_0000, 0, 1, 0] {
            bytes.extend_from_slice(&word.to_le_bytes());
        }
        ShaderModule::from_bytes(shader, &bytes).unwrap()
    };
    let modules = [
        module(Shader::Finishing1),
        module(Shader::Finishing2),
        module(Shader::Finishing3),
        module(Shader::Finishing4),
    ];
    let frame = RawFinishing::new(&context, 32, [4, 4]).unwrap();
    let plan = frame
        .process(&context, &modules, 0, 1023, [0; 4], [0; 4], [0; 9], [0; 9])
        .unwrap();
    assert!(plan.compute.check_dependencies(vec![]));
    assert!(plan.readback.check_dependencies(vec![0, 1, 2, 3]));
    assert!(plan.readback.check_dependencies(vec![3]));
    assert!(!plan.readback.check_dependencies(vec![]));
}
