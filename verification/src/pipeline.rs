use vstd::prelude::*;
use crate::params::StageParameters;
use crate::shader::ShaderModule;
use crate::pipeline::command::{
    lemma_state_after_push, state_after, state_step, CommandSequence, CommandView,
    ComputePipeline, DescriptorSet, DescriptorSetView, RecordingState, WriteDescriptorSet,
};
use crate::pipeline::stage::StageDescriptor;

pub mod command;
pub mod context;
pub mod orchestrator;
pub mod raw_finishing;
pub mod resource;
pub mod stage;
pub mod stage_1;
pub mod stage_2;
pub mod stage_3;
pub mod stage_4;
pub mod utils;

verus! {

/// The pipeline that runs the module's shader from the module's entry point.
pub fn create_compute_pipeline_from(shader_module: &ShaderModule) -> (pipeline: ComputePipeline)
    ensures
        pipeline.shader == shader_module.spec_shader(),
{
    ComputePipeline { shader: shader_module.shader() }
}

/// The descriptor set that binds `descriptor_writes` as set 0 of `compute_pipeline`.
pub fn create_descriptor_sets(
    compute_pipeline: ComputePipeline,
    descriptor_writes: Vec<WriteDescriptorSet>,
) -> (set: DescriptorSet)
    ensures
        set@ == (DescriptorSetView {
            pipeline: compute_pipeline,
            set: 0,
            writes: descriptor_writes@,
        }),
{
    DescriptorSet { pipeline: compute_pipeline, set: 0, writes: descriptor_writes }
}

/// The commands that run one stage: bind the pipeline, set its parameters
/// from byte 0 on if it takes any, bind its descriptor set as set 0, dispatch.
pub open spec fn stage_commands(
    compute_pipeline: ComputePipeline,
    constants: StageParameters,
    descriptor_set: DescriptorSetView,
    group_counts: [u32; 3],
) -> Seq<CommandView> {
    let bind = seq![CommandView::BindPipelineCompute { pipeline: compute_pipeline }];
    let push = if constants is Absent {
        Seq::<CommandView>::empty()
    } else {
        seq![CommandView::PushConstants { pipeline: compute_pipeline, offset: 0, constants }]
    };
    let rest = seq![
        CommandView::BindDescriptorSets { first_set: 0, descriptor_set },
        CommandView::Dispatch { group_counts },
    ];
    bind + push + rest
}

/// Records the commands of one stage after those already in the builder,
/// and hands the builder back.
pub fn bind_and_dispatch_pipeline_with_constants(
    command_buffer_builder: CommandSequence,
    compute_pipeline: ComputePipeline,
    constants: StageParameters,
    descriptor_sets: DescriptorSet,
    group_counts: [u32; 3],
) -> (extended: CommandSequence)
    ensures
        extended@ == command_buffer_builder@ + stage_commands(
            compute_pipeline,
            constants,
            descriptor_sets@,
            group_counts,
        ),
{
    let mut builder = command_buffer_builder;
    let descriptor = StageDescriptor::new(compute_pipeline, constants, descriptor_sets);
    descriptor.dispatch(&mut builder, group_counts);
    builder
}

/// What running one stage does to the recording state: the stage's
/// pipeline, parameters and descriptor set are in place, and then the
/// dispatch is judged.
pub proof fn lemma_state_after_stage(
    written: Set<usize>,
    before: Seq<CommandView>,
    compute_pipeline: ComputePipeline,
    constants: StageParameters,
    descriptor_set: DescriptorSetView,
    group_counts: [u32; 3],
)
    ensures
        ({
            let entry = state_after(written, before);
            let ready = RecordingState {
                pipeline: Some(compute_pipeline),
                constants: if constants is Absent {
                    entry.constants
                } else {
                    constants
                },
                descriptor_set: Some(descriptor_set),
                ..entry
            };
            state_after(
                written,
                before + stage_commands(compute_pipeline, constants, descriptor_set, group_counts),
            ) == state_step(ready, CommandView::Dispatch { group_counts })
        }),
{
    let bind = CommandView::BindPipelineCompute { pipeline: compute_pipeline };
    let push = CommandView::PushConstants { pipeline: compute_pipeline, offset: 0, constants };
    let sets = CommandView::BindDescriptorSets { first_set: 0, descriptor_set };
    let dispatch = CommandView::Dispatch { group_counts };
    let stage = stage_commands(compute_pipeline, constants, descriptor_set, group_counts);
    lemma_state_after_push(written, before, bind);
    if constants is Absent {
        assert(before + stage =~= before.push(bind).push(sets).push(dispatch));
        lemma_state_after_push(written, before.push(bind), sets);
        lemma_state_after_push(written, before.push(bind).push(sets), dispatch);
    } else {
        assert(before + stage =~= before.push(bind).push(push).push(sets).push(dispatch));
        lemma_state_after_push(written, before.push(bind), push);
        lemma_state_after_push(written, before.push(bind).push(push), sets);
        lemma_state_after_push(written, before.push(bind).push(push).push(sets), dispatch);
    }
}

} // verus!
