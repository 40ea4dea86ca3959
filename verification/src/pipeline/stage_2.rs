use vstd::prelude::*;
use crate::error::PipelineError;
use crate::params::{Stage2Parameters, StageParameters};
use crate::pipeline::command::{
    CommandSequence, CommandView, ComputePipeline, DescriptorSetView, WriteDescriptorSet,
};
use crate::pipeline::create_descriptor_sets;
use crate::pipeline::stage::{StageDescriptor, StageDescriptorView};
use crate::pipeline::utils::create_compute_pipeline_from_shader;
use crate::shader::{Shader, ShaderModule};

verus! {

/// The descriptor set of the stage: the normalized image at slot 0, the colour image at slot 1.
pub open spec fn descriptor_set(
    raw_normalized_image: usize,
    rgba_image: usize,
) -> DescriptorSetView {
    DescriptorSetView {
        pipeline: ComputePipeline { shader: Shader::Finishing2 },
        set: 0,
        writes: seq![
            WriteDescriptorSet { binding: 0, image_view: raw_normalized_image },
            WriteDescriptorSet { binding: 1, image_view: rgba_image },
        ],
    }
}

/// The descriptor of the stage.
pub open spec fn stage_descriptor(
    raw_normalized_image: usize,
    rgba_image: usize,
    parameters: Stage2Parameters,
) -> StageDescriptorView {
    StageDescriptorView {
        compute_pipeline: ComputePipeline { shader: Shader::Finishing2 },
        constants: StageParameters::Demosaic(parameters),
        descriptor_set: descriptor_set(raw_normalized_image, rgba_image),
    }
}

/// The commands of the stage.
pub open spec fn commands(
    group_counts: [u32; 3],
    raw_normalized_image: usize,
    rgba_image: usize,
    parameters: Stage2Parameters,
) -> Seq<CommandView> {
    stage_descriptor(raw_normalized_image, rgba_image, parameters).commands(group_counts)
}

/// Makes the descriptor of the stage from the module of its shader.
///
/// Fails with `ShaderLoadFailure` exactly if `shader_module` was loaded
/// for another shader.
pub fn descriptor(
    shader_module: &ShaderModule,
    raw_normalized_image: usize,
    rgba_image: usize,
    parameters: Stage2Parameters,
) -> (made: Result<StageDescriptor, PipelineError>)
    ensures
        match made {
            Ok(descriptor) => {
                &&& shader_module.spec_shader() == Shader::Finishing2
                &&& descriptor@ == stage_descriptor(raw_normalized_image, rgba_image, parameters)
            },
            Err(e) => {
                &&& e == PipelineError::ShaderLoadFailure
                &&& shader_module.spec_shader() != Shader::Finishing2
            },
        },
{
    match shader_module.shader() {
        Shader::Finishing2 => {},
        _ => {
            return Err(PipelineError::ShaderLoadFailure);
        },
    }
    let compute_pipeline = create_compute_pipeline_from_shader(shader_module);
    let mut descriptor_writes: Vec<WriteDescriptorSet> = Vec::new();
    descriptor_writes.push(WriteDescriptorSet::image_view(0, raw_normalized_image));
    descriptor_writes.push(WriteDescriptorSet::image_view(1, rgba_image));
    let set = create_descriptor_sets(compute_pipeline, descriptor_writes);
    assert(set@.writes =~= descriptor_set(raw_normalized_image, rgba_image).writes);
    Ok(StageDescriptor::new(compute_pipeline, StageParameters::Demosaic(parameters), set))
}

/// Records the demosaic stage: it reads the normalized image at slot 0 and
/// writes the colour image at slot 1, with the mosaic's plane order as parameters.
///
/// Fails with `ShaderLoadFailure`, and records nothing, exactly if
/// `shader_module` was loaded for another shader.
pub fn setup_and_dispatch(
    shader_module: &ShaderModule,
    command_buffer_builder: &mut CommandSequence,
    group_counts: [u32; 3],
    raw_normalized_image: usize,
    rgba_image: usize,
    parameters: Stage2Parameters,
) -> (done: Result<(), PipelineError>)
    ensures
        match done {
            Ok(_) => {
                &&& shader_module.spec_shader() == Shader::Finishing2
                &&& final(command_buffer_builder)@ == old(command_buffer_builder)@ + commands(
                    group_counts,
                    raw_normalized_image,
                    rgba_image,
                    parameters,
                )
            },
            Err(e) => {
                &&& e == PipelineError::ShaderLoadFailure
                &&& shader_module.spec_shader() != Shader::Finishing2
                &&& final(command_buffer_builder)@ == old(command_buffer_builder)@
            },
        },
{
    match descriptor(shader_module, raw_normalized_image, rgba_image, parameters) {
        Ok(stage) => {
            stage.dispatch(command_buffer_builder, group_counts);
            Ok(())
        },
        Err(e) => Err(e),
    }
}

} // verus!
