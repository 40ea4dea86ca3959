use raw_processor::error::PipelineError;
use raw_processor::params::{Stage1Parameters, Stage2Parameters, Stage3Parameters, StageParameters};
use raw_processor::pipeline::command::{
    Command, CommandSequence, ComputePipeline, DescriptorSet, WriteDescriptorSet,
};
use raw_processor::pipeline::context::{DeviceFeatures, PipelineContext};
use raw_processor::pipeline::raw_finishing::{FramePlan, RawFinishing};
use raw_processor::pipeline::stage::StageDescriptor;
use raw_processor::pipeline::utils::create_compute_pipeline_from_shader;
use raw_processor::pipeline::{
    bind_and_dispatch_pipeline_with_constants, create_compute_pipeline_from,
    create_descriptor_sets, stage_1, stage_2, stage_3, stage_4,
};
use raw_processor::shader::{Shader, ShaderModule, SPIRV_MAGIC};

const SHADERS: [Shader; 4] =
    [Shader::Finishing1, Shader::Finishing2, Shader::Finishing3, Shader::Finishing4];

fn context() -> PipelineContext {
    PipelineContext {
        device_index: 0,
        queue_family_index: 0,
        enabled_features: DeviceFeatures::finishing(),
    }
}

fn module(shader: Shader) -> ShaderModule {
    let mut bytes = Vec::new();
    for word in [SPIRV_MAGIC, 0x0001_0000, 0, 1, 0] {
        bytes.extend_from_slice(&word.to_le_bytes());
    }
    ShaderModule::from_bytes(shader, &bytes).unwrap()
}

fn modules() -> [ShaderModule; 4] {
    [
        module(Shader::Finishing1),
        module(Shader::Finishing2),
        module(Shader::Finishing3),
        module(Shader::Finishing4),
    ]
}

fn identity() -> [u32; 9] {
    let one = 1.0f32.to_bits();
    [one, 0, 0, 0, one, 0, 0, 0, one]
}

fn set(shader: Shader, images: &[usize]) -> DescriptorSet {
    DescriptorSet {
        pipeline: ComputePipeline { shader },
        set: 0,
        writes: images
            .iter()
            .enumerate()
            .map(|(binding, image)| WriteDescriptorSet { binding: binding as u32, image_view: *image })
            .collect(),
    }
}

fn commands(sequence: &CommandSequence) -> Vec<&Command> {
    (0..sequence.len()).map(|i| sequence.get(i)).collect()
}

fn plan_for(
    size: [i32; 2],
    arrangement: i32,
    white_level: i32,
    black_level: [i32; 4],
    first: [u32; 9],
    second: [u32; 9],
) -> Result<FramePlan, PipelineError> {
    let len = (size[0] * size[1] * 2) as usize;
    let frame = RawFinishing::new(&context(), len, size).unwrap();
    frame.process(
        &context(),
        &modules(),
        arrangement,
        white_level,
        black_level,
        [0; 4],
        first,
        second,
    )
}

#[test]
fn frame_records_upload_then_four_stages() {
    let one = 1.0f32.to_bits();
    let plan = plan_for([10, 4], 0, 1023, [0; 4], identity(), identity()).unwrap();
    let grid = [2, 1, 1];
    let identity_rows = [[one, 0, 0, 0], [0, one, 0, 0], [0, 0, one, 0]];
    let expected = vec![
        Command::CopyBufferToImage { buffer: 0, image: 0 },
        Command::BindPipelineCompute { pipeline: ComputePipeline { shader: Shader::Finishing1 } },
        Command::PushConstants {
            pipeline: ComputePipeline { shader: Shader::Finishing1 },
            offset: 0,
            constants: StageParameters::Normalize(Stage1Parameters {
                white_level: 1023,
                black_level: 0,
            }),
        },
        Command::BindDescriptorSets { first_set: 0, descriptor_set: set(Shader::Finishing1, &[0, 1]) },
        Command::Dispatch { group_counts: grid },
        Command::BindPipelineCompute { pipeline: ComputePipeline { shader: Shader::Finishing2 } },
        Command::PushConstants {
            pipeline: ComputePipeline { shader: Shader::Finishing2 },
            offset: 0,
            constants: StageParameters::Demosaic(Stage2Parameters { cfa: [0, 1, 2, 3] }),
        },
        Command::BindDescriptorSets { first_set: 0, descriptor_set: set(Shader::Finishing2, &[1, 2]) },
        Command::Dispatch { group_counts: grid },
        Command::BindPipelineCompute { pipeline: ComputePipeline { shader: Shader::Finishing3 } },
        Command::PushConstants {
            pipeline: ComputePipeline { shader: Shader::Finishing3 },
            offset: 0,
            constants: StageParameters::ColorCorrect(Stage3Parameters {
                forward_matrix_1: identity_rows,
                forward_matrix_2: identity_rows,
            }),
        },
        Command::BindDescriptorSets { first_set: 0, descriptor_set: set(Shader::Finishing3, &[2]) },
        Command::Dispatch { group_counts: grid },
        Command::BindPipelineCompute { pipeline: ComputePipeline { shader: Shader::Finishing4 } },
        Command::BindDescriptorSets { first_set: 0, descriptor_set: set(Shader::Finishing4, &[2, 3]) },
        Command::Dispatch { group_counts: grid },
    ];
    assert_eq!(plan.compute.len(), 16);
    assert_eq!(commands(&plan.compute), expected.iter().collect::<Vec<_>>());
    assert_eq!(
        commands(&plan.readback),
        vec![&Command::CopyImageToBuffer { image: 3, buffer: 1 }]
    );
}

#[test]
fn every_stage_reads_what_the_stage_before_wrote() {
    let plan = plan_for([4, 4], 0, 1023, [0; 4], identity(), identity()).unwrap();
    let mut written = vec![false; 4];
    let mut bound: Option<(Shader, Vec<usize>)> = None;
    let mut dispatches = 0;
    for command in commands(&plan.compute) {
        match command {
            Command::CopyBufferToImage { image, .. } => written[*image] = true,
            Command::BindDescriptorSets { descriptor_set, .. } => {
                let images = descriptor_set.writes.iter().map(|w| w.image_view).collect();
                bound = Some((descriptor_set.pipeline.shader, images));
            }
            Command::Dispatch { .. } => {
                let (shader, images) = bound.clone().unwrap();
                assert_eq!(shader, SHADERS[dispatches]);
                if shader == Shader::Finishing3 {
                    assert!(written[images[0]]);
                } else {
                    assert!(written[images[0]], "stage {} reads an unwritten image", dispatches + 1);
                    assert!(!written[images[1]]);
                    written[images[1]] = true;
                }
                dispatches += 1;
            }
            _ => {}
        }
    }
    assert_eq!(dispatches, 4);
    assert_eq!(written, vec![true; 4]);
}

#[test]
fn parameters_reach_their_blocks() {
    let first = [11, 12, 13, 21, 22, 23, 31, 32, 33];
    let second = [41, 42, 43, 51, 52, 53, 61, 62, 63];
    let plan = plan_for([8, 8], 3, 4095, [64, 65, 66, 67], first, second).unwrap();
    let recorded = commands(&plan.compute);
    assert_eq!(
        recorded[2],
        &Command::PushConstants {
            pipeline: ComputePipeline { shader: Shader::Finishing1 },
            offset: 0,
            constants: StageParameters::Normalize(Stage1Parameters {
                white_level: 4095,
                black_level: 64,
            }),
        }
    );
    assert_eq!(
        recorded[6],
        &Command::PushConstants {
            pipeline: ComputePipeline { shader: Shader::Finishing2 },
            offset: 0,
            constants: StageParameters::Demosaic(Stage2Parameters { cfa: [3, 2, 1, 0] }),
        }
    );
    assert_eq!(
        recorded[10],
        &Command::PushConstants {
            pipeline: ComputePipeline { shader: Shader::Finishing3 },
            offset: 0,
            constants: StageParameters::ColorCorrect(Stage3Parameters {
                forward_matrix_1: [[11, 12, 13, 0], [21, 22, 23, 0], [31, 32, 33, 0]],
                forward_matrix_2: [[41, 42, 43, 0], [51, 52, 53, 0], [61, 62, 63, 0]],
            }),
        }
    );
}

#[test]
fn every_stage_runs_on_the_grid_of_the_frame() {
    let plan = plan_for([4033, 3025], 1, 1023, [0; 4], identity(), identity()).unwrap();
    let grids: Vec<[u32; 3]> = commands(&plan.compute)
        .into_iter()
        .filter_map(|command| match command {
            Command::Dispatch { group_counts } => Some(*group_counts),
            _ => None,
        })
        .collect();
    assert_eq!(grids, vec![[505, 379, 1]; 4]);
}

#[test]
fn arrangement_must_be_a_bayer_order() {
    for arrangement in [-1, 4, 5, 6, i32::MAX, i32::MIN] {
        assert_eq!(
            plan_for([4, 4], arrangement, 1023, [0; 4], identity(), identity()).err(),
            Some(PipelineError::SubmissionFailure)
        );
    }
    for arrangement in 0..4 {
        assert!(plan_for([4, 4], arrangement, 1023, [0; 4], identity(), identity()).is_ok());
    }
}

#[test]
fn levels_must_not_be_negative() {
    assert_eq!(
        plan_for([4, 4], 0, -1, [0; 4], identity(), identity()).err(),
        Some(PipelineError::SubmissionFailure)
    );
    assert_eq!(
        plan_for([4, 4], 0, 1023, [-1, 0, 0, 0], identity(), identity()).err(),
        Some(PipelineError::SubmissionFailure)
    );
    assert!(plan_for([4, 4], 0, 0, [0; 4], identity(), identity()).is_ok());
    assert!(plan_for([4, 4], 0, i32::MAX, [i32::MAX, -5, -6, -7], identity(), identity()).is_ok());
}

#[test]
fn modules_must_come_in_pipeline_order() {
    let frame = RawFinishing::new(&context(), 32, [4, 4]).unwrap();
    let swapped = [
        module(Shader::Finishing2),
        module(Shader::Finishing1),
        module(Shader::Finishing3),
        module(Shader::Finishing4),
    ];
    assert_eq!(
        frame
            .process(&context(), &swapped, 0, 1023, [0; 4], [0; 4], identity(), identity())
            .err(),
        Some(PipelineError::ShaderLoadFailure)
    );
    let repeated = [
        module(Shader::Finishing1),
        module(Shader::Finishing2),
        module(Shader::Finishing3),
        module(Shader::Finishing3),
    ];
    assert_eq!(
        frame
            .process(&context(), &repeated, 9, -1, [0; 4], [0; 4], identity(), identity())
            .err(),
        Some(PipelineError::ShaderLoadFailure)
    );
}

#[test]
fn frame_runs_on_the_queue_family_it_was_planned_for() {
    let frame = RawFinishing::new(&context(), 32, [4, 4]).unwrap();
    let other = PipelineContext { queue_family_index: 1, ..context() };
    assert_eq!(
        frame
            .process(&other, &modules(), 0, 1023, [0; 4], [0; 4], identity(), identity())
            .err(),
        Some(PipelineError::SubmissionFailure)
    );
}

#[test]
fn pipeline_runs_the_shader_of_its_module() {
    for shader in SHADERS {
        assert_eq!(create_compute_pipeline_from(&module(shader)), ComputePipeline { shader });
        assert_eq!(
            create_compute_pipeline_from_shader(&module(shader)),
            ComputePipeline { shader }
        );
    }
}

#[test]
fn descriptor_set_is_set_zero_of_its_pipeline() {
    let pipeline = ComputePipeline { shader: Shader::Finishing2 };
    let writes = vec![WriteDescriptorSet::image_view(0, 1), WriteDescriptorSet::image_view(1, 2)];
    assert_eq!(writes[1], WriteDescriptorSet { binding: 1, image_view: 2 });
    assert_eq!(create_descriptor_sets(pipeline, writes), set(Shader::Finishing2, &[1, 2]));
}

#[test]
fn stage_with_constants_records_four_commands() {
    let mut builder = CommandSequence::new();
    builder.record(Command::CopyBufferToImage { buffer: 0, image: 0 });
    let pipeline = ComputePipeline { shader: Shader::Finishing1 };
    let constants =
        StageParameters::Normalize(Stage1Parameters { white_level: 1023, black_level: 0 });
    let builder = bind_and_dispatch_pipeline_with_constants(
        builder,
        pipeline,
        constants,
        set(Shader::Finishing1, &[0, 1]),
        [3, 2, 1],
    );
    assert_eq!(
        commands(&builder),
        vec![
            &Command::CopyBufferToImage { buffer: 0, image: 0 },
            &Command::BindPipelineCompute { pipeline },
            &Command::PushConstants { pipeline, offset: 0, constants },
            &Command::BindDescriptorSets {
                first_set: 0,
                descriptor_set: set(Shader::Finishing1, &[0, 1])
            },
            &Command::Dispatch { group_counts: [3, 2, 1] },
        ]
    );
}

#[test]
fn stage_without_constants_records_three_commands() {
    let pipeline = ComputePipeline { shader: Shader::Finishing4 };
    let builder = bind_and_dispatch_pipeline_with_constants(
        CommandSequence::new(),
        pipeline,
        StageParameters::Absent,
        set(Shader::Finishing4, &[2, 3]),
        [1, 1, 1],
    );
    assert_eq!(
        commands(&builder),
        vec![
            &Command::BindPipelineCompute { pipeline },
            &Command::BindDescriptorSets {
                first_set: 0,
                descriptor_set: set(Shader::Finishing4, &[2, 3])
            },
            &Command::Dispatch { group_counts: [1, 1, 1] },
        ]
    );
}

#[test]
fn descriptor_holds_what_it_was_made_of() {
    let pipeline = ComputePipeline { shader: Shader::Finishing3 };
    let constants = StageParameters::ColorCorrect(Stage3Parameters::from_matrices(&[1; 9], &[2; 9]));
    let descriptor = StageDescriptor::new(pipeline, constants, set(Shader::Finishing3, &[2]));
    assert_eq!(descriptor.compute_pipeline(), pipeline);
    assert_eq!(descriptor.constants(), constants);
    assert_eq!(descriptor.descriptor_set(), &set(Shader::Finishing3, &[2]));
    let mut builder = CommandSequence::new();
    descriptor.dispatch(&mut builder, [2, 2, 1]);
    assert_eq!(builder.len(), 4);
    assert_eq!(builder.get(3), &Command::Dispatch { group_counts: [2, 2, 1] });
}

#[test]
fn each_stage_binds_its_own_images() {
    let mut builder = CommandSequence::new();
    let normalize = Stage1Parameters { white_level: 255, black_level: 16 };
    let demosaic = Stage2Parameters { cfa: [1, 0, 3, 2] };
    let correct = Stage3Parameters::from_matrices(&identity(), &identity());
    let grid = [1, 1, 1];
    assert_eq!(
        stage_1::setup_and_dispatch(&module(Shader::Finishing1), &mut builder, grid, 0, 1, normalize),
        Ok(())
    );
    assert_eq!(
        stage_2::setup_and_dispatch(&module(Shader::Finishing2), &mut builder, grid, 1, 2, demosaic),
        Ok(())
    );
    assert_eq!(
        stage_3::setup_and_dispatch(&module(Shader::Finishing3), &mut builder, grid, 2, correct),
        Ok(())
    );
    assert_eq!(
        stage_4::setup_and_dispatch(&module(Shader::Finishing4), &mut builder, grid, 2, 3),
        Ok(())
    );
    assert_eq!(builder.len(), 15);
    let sets: Vec<&DescriptorSet> = commands(&builder)
        .into_iter()
        .filter_map(|command| match command {
            Command::BindDescriptorSets { descriptor_set, .. } => Some(descriptor_set),
            _ => None,
        })
        .collect();
    assert_eq!(
        sets,
        vec![
            &set(Shader::Finishing1, &[0, 1]),
            &set(Shader::Finishing2, &[1, 2]),
            &set(Shader::Finishing3, &[2]),
            &set(Shader::Finishing4, &[2, 3]),
        ]
    );
}

#[test]
fn a_stage_refuses_the_module_of_another_shader() {
    let mut builder = CommandSequence::new();
    let grid = [1, 1, 1];
    let normalize = Stage1Parameters { white_level: 255, black_level: 16 };
    assert_eq!(
        stage_1::setup_and_dispatch(&module(Shader::Finishing2), &mut builder, grid, 0, 1, normalize),
        Err(PipelineError::ShaderLoadFailure)
    );
    assert_eq!(
        stage_2::setup_and_dispatch(
            &module(Shader::Finishing1),
            &mut builder,
            grid,
            1,
            2,
            Stage2Parameters { cfa: [0, 1, 2, 3] }
        ),
        Err(PipelineError::ShaderLoadFailure)
    );
    assert_eq!(
        stage_3::setup_and_dispatch(
            &module(Shader::Finishing4),
            &mut builder,
            grid,
            2,
            Stage3Parameters::from_matrices(&identity(), &identity())
        ),
        Err(PipelineError::ShaderLoadFailure)
    );
    assert_eq!(
        stage_4::setup_and_dispatch(&module(Shader::Finishing3), &mut builder, grid, 2, 3),
        Err(PipelineError::ShaderLoadFailure)
    );
    assert_eq!(builder.len(), 0);
    assert!(stage_1::descriptor(&module(Shader::Finishing4), 0, 1, normalize).is_err());
    assert!(stage_1::descriptor(&module(Shader::Finishing1), 0, 1, normalize).is_ok());
}
