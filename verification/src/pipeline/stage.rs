use vstd::prelude::*;
use crate::params::StageParameters;
use crate::pipeline::command::{
    Command, CommandSequence, CommandView, ComputePipeline, DescriptorSet, DescriptorSetView,
};
use crate::pipeline::stage_commands;

verus! {

/// All that one dispatch of a stage needs: the pipeline of its shader, its
/// parameter block and the images bound to its slots. A descriptor does not
/// change once it is made, and dispatching uses it up.
pub struct StageDescriptor {
    compute_pipeline: ComputePipeline,
    constants: StageParameters,
    descriptor_set: DescriptorSet,
}

/// A stage descriptor as a mathematical value.
pub struct StageDescriptorView {
    pub compute_pipeline: ComputePipeline,
    pub constants: StageParameters,
    pub descriptor_set: DescriptorSetView,
}

impl StageDescriptorView {
    /// The commands that dispatch the stage on a grid of `group_counts` work groups.
    pub open spec fn commands(self, group_counts: [u32; 3]) -> Seq<CommandView> {
        stage_commands(self.compute_pipeline, self.constants, self.descriptor_set, group_counts)
    }
}

impl View for StageDescriptor {
    type V = StageDescriptorView;

    closed spec fn view(&self) -> StageDescriptorView {
        StageDescriptorView {
            compute_pipeline: self.compute_pipeline,
            constants: self.constants,
            descriptor_set: self.descriptor_set@,
        }
    }
}

impl StageDescriptor {
    /// Puts a descriptor together.
    pub fn new(
        compute_pipeline: ComputePipeline,
        constants: StageParameters,
        descriptor_set: DescriptorSet,
    ) -> (descriptor: StageDescriptor)
        ensures
            descriptor@ == (StageDescriptorView {
                compute_pipeline,
                constants,
                descriptor_set: descriptor_set@,
            }),
    {
        StageDescriptor { compute_pipeline, constants, descriptor_set }
    }

    /// The pipeline of the stage.
    pub fn compute_pipeline(&self) -> (pipeline: ComputePipeline)
        ensures
            pipeline == self@.compute_pipeline,
    {
        self.compute_pipeline
    }

    /// The parameter block of the stage.
    pub fn constants(&self) -> (constants: StageParameters)
        ensures
            constants == self@.constants,
    {
        self.constants
    }

    /// The images bound to the slots of the stage.
    pub fn descriptor_set(&self) -> (set: &DescriptorSet)
        ensures
            set@ == self@.descriptor_set,
    {
        &self.descriptor_set
    }

    /// Records the commands of the stage after those already in the
    /// builder: bind the pipeline, set the parameters from byte 0 on if the
    /// stage takes any, bind the descriptor set as set 0, dispatch.
    pub fn dispatch(self, command_buffer_builder: &mut CommandSequence, group_counts: [u32; 3])
        ensures
            final(command_buffer_builder)@ == old(command_buffer_builder)@ + self@.commands(
                group_counts,
            ),
    {
        let StageDescriptor { compute_pipeline, constants, descriptor_set } = self;
        command_buffer_builder.record(Command::BindPipelineCompute { pipeline: compute_pipeline });
        match constants {
            StageParameters::Absent => {},
            _ => {
                command_buffer_builder.record(
                    Command::PushConstants { pipeline: compute_pipeline, offset: 0, constants },
                );
            },
        }
        command_buffer_builder.record(
            Command::BindDescriptorSets { first_set: 0, descriptor_set },
        );
        command_buffer_builder.record(Command::Dispatch { group_counts });
    }
}

} // verus!
