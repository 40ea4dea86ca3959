use vstd::prelude::*;
use crate::pipeline::command::ComputePipeline;
use crate::pipeline::create_compute_pipeline_from;
use crate::shader::ShaderModule;

verus! {

/// The pipeline that runs the module's shader from the module's entry point.
pub fn create_compute_pipeline_from_shader(shader_module: &ShaderModule) -> (pipeline:
    ComputePipeline)
    ensures
        pipeline.shader == shader_module.spec_shader(),
{
    create_compute_pipeline_from(shader_module)
}

} // verus!
