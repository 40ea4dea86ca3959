use vstd::prelude::*;
use crate::error::PipelineError;
use crate::params::{Stage1Parameters, StageParameters};
use crate::pipeline::command::{
    CommandSequence, CommandView, ComputePipeline, DescriptorSetView, WriteDescriptorSet,
};
use crate::pipeline::create_descriptor_sets;
use crate::pipeline::stage::{StageDescriptor, StageDescriptorView};
use crate::pipeline::utils::create_compute_pipeline_from_shader;
use crate::shader::{Shader, ShaderModule};

verus! {

/// The descriptor set of the stage: the raw image at slot 0, the normalized image at slot 1.
pub open spec fn descriptor_set(
    raw_image: usize,
    raw_normalized_image: usize,
) -> DescriptorSetView {
    DescriptorSetView {
        pipeline: ComputePipeline { shader: Shader::Finishing1 },
        set: 0,
        writes: seq![
            WriteDescriptorSet { binding: 0, image_view: raw_image },
            WriteDescriptorSet { binding: 1, image_view: raw_normalized_image },
        ],
    }
}

/// The descriptor of the stage.
pub open spec fn stage_descriptor(
    raw_image: usize,
    raw_normalized_image: usize,
    parameters: Stage1Parameters,
) -> StageDescriptorView {
    StageDescriptorView {
        compute_pipeline: ComputePipeline { shader: Shader::Finishing1 },
        constants: StageParameters::Normalize(parameters),
        descriptor_set: descriptor_set(raw_image, raw_normalized_image),
    }
}

/// The commands of the stage.
pub open spec fn commands(
    group_counts: [u32; 3],
    raw_image: usize,
    raw_normalized_image: usize,
    parameters: Stage1Parameters,
) -> Seq<CommandView> {
    stage_descriptor(raw_image, raw_normalized_image, parameters).commands(group_counts)
}

/// Makes the descriptor of the stage from the module of its shader.
///
/// Fails with `ShaderLoadFailure` exactly if `shader_module` was loaded
/// for another shader.
pub fn descriptor(
    shader_module: &ShaderModule,
    raw_image: usize,
    raw_normalized_image: usize,
    parameters: Stage1Parameters,
) -> (made: Result<StageDescriptor, PipelineError>)
    ensures
        match made {
            Ok(descriptor) => {
                &&& shader_module.spec_shader() == Shader::Finishing1
                &&& descriptor@ == stage_descriptor(raw_image, raw_normalized_image, parameters)
            },
            Err(e) => {
                &&& e == PipelineError::ShaderLoadFailure
                &&& shader_module.spec_shader() != Shader::Finishing1
            },
        },
{
    match shader_module.shader() {
        Shader::Finishing1 => {},
        _ => {
            return Err(PipelineError::ShaderLoadFailure);
        },
    }
    let compute_pipeline = create_compute_pipeline_from_shader(shader_module);
    let mut descriptor_writes: Vec<WriteDescriptorSet> = Vec::new();
    descriptor_writes.push(WriteDescriptorSet::image_view(0, raw_image));
    descriptor_writes.push(WriteDescriptorSet::image_view(1, raw_normalized_image));
    let set = create_descriptor_sets(compute_pipeline, descriptor_writes);
    assert(set@.writes =~= descriptor_set(raw_image, raw_normalized_image).writes);
    Ok(StageDescriptor::new(compute_pipeline, StageParameters::Normalize(parameters), set))
}

/// Records the normalize stage: it reads the raw image at slot 0 and writes
/// the normalized image at slot 1, with the white and black level as parameters.
///
/// Fails with `ShaderLoadFailure`, and records nothing, exactly if
/// `shader_module` was loaded for another shader.
pub fn setup_and_dispatch(
    shader_module: &ShaderModule,
    command_buffer_builder: &mut CommandSequence,
    group_counts: [u32; 3],
    raw_image: usize,
    raw_normalized_image: usize,
    parameters: Stage1Parameters,
) -> (done: Result<(), PipelineError>)
    ensures
        match done {
            Ok(_) => {
                &&& shader_module.spec_shader() == Shader::Finishing1
                &&& final(command_buffer_builder)@ == old(command_buffer_builder)@ + commands(
                    group_counts,
                    raw_image,
                    raw_normalized_image,
                    parameters,
                )
            },
            Err(e) => {
                &&& e == PipelineError::ShaderLoadFailure
                &&& shader_module.spec_shader() != Shader::Finishing1
                &&& final(command_buffer_builder)@ == old(command_buffer_builder)@
            },
        },
{
    match descriptor(shader_module, raw_image, raw_normalized_image, parameters) {
        Ok(stage) => {
            stage.dispatch(command_buffer_builder, group_counts);
            Ok(())
        },
        Err(e) => Err(e),
    }
}

} // verus!
