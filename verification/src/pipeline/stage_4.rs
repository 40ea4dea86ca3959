use vstd::prelude::*;
use crate::error::PipelineError;
use crate::params::StageParameters;
use crate::pipeline::command::{
    CommandSequence, CommandView, ComputePipeline, DescriptorSetView, WriteDescriptorSet,
};
use crate::pipeline::create_descriptor_sets;
use crate::pipeline::stage::{StageDescriptor, StageDescriptorView};
use crate::pipeline::utils::create_compute_pipeline_from_shader;
use crate::shader::{Shader, ShaderModule};

verus! {

/// The descriptor set of the stage: the colour image at slot 0, the 8-bit image at slot 1.
pub open spec fn descriptor_set(
    rgba_image: usize,
    quantized_image: usize,
) -> DescriptorSetView {
    DescriptorSetView {
        pipeline: ComputePipeline { shader: Shader::Finishing4 },
        set: 0,
        writes: seq![
            WriteDescriptorSet { binding: 0, image_view: rgba_image },
            WriteDescriptorSet { binding: 1, image_view: quantized_image },
        ],
    }
}

/// The descriptor of the stage.
pub open spec fn stage_descriptor(
    rgba_image: usize,
    quantized_image: usize,
) -> StageDescriptorView {
    StageDescriptorView {
        compute_pipeline: ComputePipeline { shader: Shader::Finishing4 },
        constants: StageParameters::Absent,
        descriptor_set: descriptor_set(rgba_image, quantized_image),
    }
}

/// The commands of the stage.
pub open spec fn commands(
    group_counts: [u32; 3],
    rgba_image: usize,
    quantized_image: usize,
) -> Seq<CommandView> {
    stage_descriptor(rgba_image, quantized_image).commands(group_counts)
}

/// Makes the descriptor of the stage from the module of its shader.
///
/// Fails with `ShaderLoadFailure` exactly if `shader_module` was loaded
/// for another shader.
pub fn descriptor(
    shader_module: &ShaderModule,
    rgba_image: usize,
    quantized_image: usize,
) -> (made: Result<StageDescriptor, PipelineError>)
    ensures
        match made {
            Ok(descriptor) => {
                &&& shader_module.spec_shader() == Shader::Finishing4
                &&& descriptor@ == stage_descriptor(rgba_image, quantized_image)
            },
            Err(e) => {
                &&& e == PipelineError::ShaderLoadFailure
                &&& shader_module.spec_shader() != Shader::Finishing4
            },
        },
{
    match shader_module.shader() {
        Shader::Finishing4 => {},
        _ => {
            return Err(PipelineError::ShaderLoadFailure);
        },
    }
    let compute_pipeline = create_compute_pipeline_from_shader(shader_module);
    let mut descriptor_writes: Vec<WriteDescriptorSet> = Vec::new();
    descriptor_writes.push(WriteDescriptorSet::image_view(0, rgba_image));
    descriptor_writes.push(WriteDescriptorSet::image_view(1, quantized_image));
    let set = create_descriptor_sets(compute_pipeline, descriptor_writes);
    assert(set@.writes =~= descriptor_set(rgba_image, quantized_image).writes);
    Ok(StageDescriptor::new(compute_pipeline, StageParameters::Absent, set))
}

/// Records the quantize stage: it reads the colour image at slot 0 and
/// writes the 8-bit image at slot 1. The stage takes no parameters.
///
/// Fails with `ShaderLoadFailure`, and records nothing, exactly if
/// `shader_module` was loaded for another shader.
pub fn setup_and_dispatch(
    shader_module: &ShaderModule,
    command_buffer_builder: &mut CommandSequence,
    group_counts: [u32; 3],
    rgba_image: usize,
    quantized_image: usize,
) -> (done: Result<(), PipelineError>)
    ensures
        match done {
            Ok(_) => {
                &&& shader_module.spec_shader() == Shader::Finishing4
                &&& final(command_buffer_builder)@ == old(command_buffer_builder)@ + commands(
                    group_counts,
                    rgba_image,
                    quantized_image,
                )
            },
            Err(e) => {
                &&& e == PipelineError::ShaderLoadFailure
                &&& shader_module.spec_shader() != Shader::Finishing4
                &&& final(command_buffer_builder)@ == old(command_buffer_builder)@
            },
        },
{
    match descriptor(shader_module, rgba_image, quantized_image) {
        Ok(stage) => {
            stage.dispatch(command_buffer_builder, group_counts);
            Ok(())
        },
        Err(e) => Err(e),
    }
}

} // verus!
