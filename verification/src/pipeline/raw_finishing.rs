use vstd::prelude::*;
use crate::error::PipelineError;
use crate::params::{
    ColorFilterArrangement, Stage1Parameters, Stage2Parameters, Stage3Parameters,
};
use crate::params::StageParameters;
use crate::pipeline::command::{
    lemma_state_after_push, outputs, respects_dependencies, state_after, Command,
    CommandSequence, CommandView, ComputePipeline,
};
use crate::pipeline::lemma_state_after_stage;
use crate::pipeline::context::PipelineContext;
use crate::pipeline::orchestrator::{Action, FrameRun, Step};
use crate::pipeline::resource::{
    dispatch_grid, work_groups, BufferResource, BufferUsage, Format, ImageResource, ImageUsage,
    TILE,
};
use crate::pipeline::{stage_1, stage_2, stage_3, stage_4};
use crate::shader::{Shader, ShaderModule};

verus! {

/// Position of the raw image among the images of a frame.
pub const RAW_IMAGE: usize = 0;

/// Position of the normalized image among the images of a frame.
pub const NORMALIZED_IMAGE: usize = 1;

/// Position of the colour image among the images of a frame.
pub const RGBA_IMAGE: usize = 2;

/// Position of the quantized image among the images of a frame.
pub const QUANTIZED_IMAGE: usize = 3;

/// Position of the input staging buffer among the buffers of a frame.
pub const INPUT_BUFFER: usize = 0;

/// Position of the output staging buffer among the buffers of a frame.
pub const OUTPUT_BUFFER: usize = 1;

/// Bytes that a frame of `width` by `height` pixels takes in `format`.
pub open spec fn image_bytes(format: Format, width: int, height: int) -> int {
    width * height * format.spec_texel_size()
}

/// A frame of `width` by `height` pixels can be built from `len` raw bytes:
/// both sides are positive, the result, four bytes a pixel, fits a byte
/// array whose length is a signed 32-bit number, and the raw bytes, two
/// a pixel, cover the raw image.
pub open spec fn frame_fits(len: int, width: int, height: int) -> bool {
    &&& width > 0
    &&& height > 0
    &&& image_bytes(Format::R8G8B8A8Unorm, width, height) <= i32::MAX
    &&& len >= image_bytes(Format::R16Uint, width, height)
}

/// An image that shaders read and write in place.
pub open spec fn storage_usage(transfer_src: bool, transfer_dst: bool) -> ImageUsage {
    ImageUsage { storage: true, transfer_src, transfer_dst }
}

/// The four images of a frame, in the order in which the stages pass them
/// on: raw, normalized, colour and quantized. All have the frame's extent.
pub open spec fn frame_images(width: u32, height: u32) -> [ImageResource; 4] {
    [
        ImageResource {
            format: Format::R16Uint,
            extent: [width, height, 1u32],
            usage: storage_usage(false, true),
        },
        ImageResource {
            format: Format::R16Sfloat,
            extent: [width, height, 1u32],
            usage: storage_usage(false, false),
        },
        ImageResource {
            format: Format::R16G16B16A16Sfloat,
            extent: [width, height, 1u32],
            usage: storage_usage(false, false),
        },
        ImageResource {
            format: Format::R8G8B8A8Unorm,
            extent: [width, height, 1u32],
            usage: storage_usage(true, false),
        },
    ]
}

/// The two staging buffers of a frame: the input holds the `len` raw bytes,
/// the output holds the quantized image, four bytes for every pixel. Both
/// are host-visible.
pub open spec fn frame_buffers(len: int, width: int, height: int) -> [BufferResource; 2] {
    [
        BufferResource {
            byte_len: len as u64,
            host_visible: true,
            usage: BufferUsage { transfer_src: true, transfer_dst: false },
        },
        BufferResource {
            byte_len: image_bytes(Format::R8G8B8A8Unorm, width, height) as u64,
            host_visible: true,
            usage: BufferUsage { transfer_src: false, transfer_dst: true },
        },
    ]
}

/// The command that moves the raw bytes from the input buffer into the raw image.
pub open spec fn upload_command() -> CommandView {
    CommandView::CopyBufferToImage { buffer: INPUT_BUFFER, image: RAW_IMAGE }
}

/// The command that moves the quantized image into the output buffer.
pub open spec fn download_command() -> CommandView {
    CommandView::CopyImageToBuffer { image: QUANTIZED_IMAGE, buffer: OUTPUT_BUFFER }
}

/// The resources of one frame and the commands that move data between host
/// and device. Made anew for every frame.
pub struct RawFinishing {
    width: u32,
    height: u32,
    image_views: [ImageResource; 4],
    buffers: [BufferResource; 2],
    work_groups: [u32; 3],
    queue_family_index: usize,
}

/// The command buffers of one frame.
pub struct FramePlan {
    /// The upload and the four stages, in program order.
    pub compute: CommandSequence,
    /// The download of the result, to be submitted once `compute` has completed.
    pub readback: CommandSequence,
}

/// The four modules are those of the four stages, in pipeline order.
pub open spec fn shaders_in_order(shaders: [ShaderModule; 4]) -> bool {
    &&& shaders[0].spec_shader() == Shader::Finishing1
    &&& shaders[1].spec_shader() == Shader::Finishing2
    &&& shaders[2].spec_shader() == Shader::Finishing3
    &&& shaders[3].spec_shader() == Shader::Finishing4
}

/// The frame parameters can be put into the stages' parameter blocks: the
/// arrangement code names a Bayer order, and the white level and the first
/// black level are not negative.
pub open spec fn parameters_usable(
    color_filter_arrangement: int,
    white_level: int,
    black_level: [i32; 4],
) -> bool {
    &&& 0 <= color_filter_arrangement <= 3
    &&& white_level >= 0
    &&& black_level[0] >= 0
}

/// The parameter block of the normalize stage: the white level, and the
/// black level of the first position of the mosaic tile.
pub open spec fn normalize_block(white_level: int, black_level: [i32; 4]) -> Stage1Parameters {
    Stage1Parameters { white_level: white_level as u32, black_level: black_level[0] as u32 }
}

/// The grid of work groups of the stage of `shader` on a frame of `width`
/// by `height` pixels: the extent in tiles of the shader, rounded upward.
pub open spec fn stage_grid(width: int, height: int, shader: Shader) -> [u32; 3] {
    dispatch_grid(width, height, shader.spec_tile())
}

/// The commands of the compute command buffer of a frame of `width` by
/// `height` pixels: the upload, then the four stages in order, each on the
/// grid of its shader. Each stage reads the image that the one before it
/// wrote.
pub open spec fn compute_commands(
    width: int,
    height: int,
    normalize: Stage1Parameters,
    demosaic: Stage2Parameters,
    correct: Stage3Parameters,
) -> Seq<CommandView> {
    seq![upload_command()] + stage_1::commands(
        stage_grid(width, height, Shader::Finishing1),
        RAW_IMAGE,
        NORMALIZED_IMAGE,
        normalize,
    ) + stage_2::commands(
        stage_grid(width, height, Shader::Finishing2),
        NORMALIZED_IMAGE,
        RGBA_IMAGE,
        demosaic,
    ) + stage_3::commands(stage_grid(width, height, Shader::Finishing3), RGBA_IMAGE, correct)
        + stage_4::commands(
        stage_grid(width, height, Shader::Finishing4),
        RGBA_IMAGE,
        QUANTIZED_IMAGE,
    )
}

impl RawFinishing {
    #[verifier::type_invariant]
    spec fn well_formed(self) -> bool {
        &&& frame_fits(self.buffers[0].byte_len as int, self.width as int, self.height as int)
        &&& self.image_views == frame_images(self.width, self.height)
        &&& self.buffers == frame_buffers(
            self.buffers[0].byte_len as int,
            self.width as int,
            self.height as int,
        )
        &&& self.work_groups == dispatch_grid(self.width as int, self.height as int, TILE as int)
    }

    /// Width of the frame in pixels.
    pub closed spec fn spec_width(self) -> int {
        self.width as int
    }

    /// Height of the frame in pixels.
    pub closed spec fn spec_height(self) -> int {
        self.height as int
    }

    /// Number of raw bytes that the frame is built from.
    pub closed spec fn spec_input_len(self) -> int {
        self.buffers[0].byte_len as int
    }

    /// The images of the frame.
    pub closed spec fn spec_images(self) -> [ImageResource; 4] {
        self.image_views
    }

    /// The staging buffers of the frame.
    pub closed spec fn spec_buffers(self) -> [BufferResource; 2] {
        self.buffers
    }

    /// The grid of work groups on which every stage of the frame runs.
    pub closed spec fn spec_work_groups(self) -> [u32; 3] {
        self.work_groups
    }

    /// The queue family that the frame's command buffers are allocated for.
    pub closed spec fn spec_queue_family_index(self) -> int {
        self.queue_family_index as int
    }

    /// Number of bytes of the result.
    pub closed spec fn spec_output_len(self) -> int {
        self.buffers[1].byte_len as int
    }

    /// What every frame satisfies: it fits, its images and buffers are those
    /// of its extent, and its grid covers the extent with the tile of every
    /// shader, which is the common tile.
    pub open spec fn consistent(self) -> bool {
        &&& frame_fits(self.spec_input_len(), self.spec_width(), self.spec_height())
        &&& self.spec_images() == frame_images(self.spec_width() as u32, self.spec_height() as u32)
        &&& self.spec_buffers() == frame_buffers(
            self.spec_input_len(),
            self.spec_width(),
            self.spec_height(),
        )
        &&& self.spec_work_groups() == dispatch_grid(
            self.spec_width(),
            self.spec_height(),
            TILE as int,
        )
        &&& forall|shader: Shader|
            self.spec_work_groups() == dispatch_grid(
                self.spec_width(),
                self.spec_height(),
                #[trigger] shader.spec_tile(),
            )
        &&& self.spec_output_len() == self.spec_buffers()[1].byte_len
        &&& self.spec_output_len() == self.spec_width() * self.spec_height() * 4
    }

    /// Plans the resources of a frame of `size[0]` by `size[1]` pixels whose
    /// raw samples are the first bytes of `len` bytes of input.
    ///
    /// Fails with `AllocationFailure` exactly if the frame does not fit.
    pub fn new(context: &PipelineContext, len: usize, size: [i32; 2]) -> (made: Result<
        RawFinishing,
        PipelineError,
    >)
        ensures
            match made {
                Ok(frame) => {
                    &&& frame_fits(len as int, size[0] as int, size[1] as int)
                    &&& frame.spec_width() == size[0]
                    &&& frame.spec_height() == size[1]
                    &&& frame.spec_input_len() == len
                    &&& frame.spec_queue_family_index() == context.queue_family_index
                    &&& frame.spec_output_len() == size[0] * size[1] * 4
                    &&& frame.consistent()
                },
                Err(e) => {
                    &&& e == PipelineError::AllocationFailure
                    &&& !frame_fits(len as int, size[0] as int, size[1] as int)
                },
            },
    {
        if size[0] <= 0 || size[1] <= 0 {
            return Err(PipelineError::AllocationFailure);
        }
        let width: u32 = size[0] as u32;
        let height: u32 = size[1] as u32;
        assert(0 < (width as int) * (height as int) <= 0x7fff_ffff * 0x7fff_ffff)
            by (nonlinear_arith)
            requires
                0 < width <= 0x7fff_ffff,
                0 < height <= 0x7fff_ffff,
        ;
        let pixels: u64 = (width as u64) * (height as u64);
        let output_texel: u64 = Format::R8G8B8A8Unorm.texel_size() as u64;
        let raw_texel: u64 = Format::R16Uint.texel_size() as u64;
        if pixels > (i32::MAX as u64) / output_texel {
            return Err(PipelineError::AllocationFailure);
        }
        if (len as u64) < pixels * raw_texel {
            return Err(PipelineError::AllocationFailure);
        }
        let extent: [u32; 3] = [width, height, 1];
        let image_views: [ImageResource; 4] = [
            ImageResource {
                format: Format::R16Uint,
                extent,
                usage: ImageUsage { storage: true, transfer_src: false, transfer_dst: true },
            },
            ImageResource {
                format: Format::R16Sfloat,
                extent,
                usage: ImageUsage { storage: true, transfer_src: false, transfer_dst: false },
            },
            ImageResource {
                format: Format::R16G16B16A16Sfloat,
                extent,
                usage: ImageUsage { storage: true, transfer_src: false, transfer_dst: false },
            },
            ImageResource {
                format: Format::R8G8B8A8Unorm,
                extent,
                usage: ImageUsage { storage: true, transfer_src: true, transfer_dst: false },
            },
        ];
        let buffers: [BufferResource; 2] = [
            BufferResource {
                byte_len: len as u64,
                host_visible: true,
                usage: BufferUsage { transfer_src: true, transfer_dst: false },
            },
            BufferResource {
                byte_len: pixels * output_texel,
                host_visible: true,
                usage: BufferUsage { transfer_src: false, transfer_dst: true },
            },
        ];
        let frame = RawFinishing {
            width,
            height,
            image_views,
            buffers,
            work_groups: work_groups(width, height, Shader::Finishing1.tile()),
            queue_family_index: context.queue_family_index,
        };
        Ok(frame)
    }

    /// Width of the frame in pixels.
    pub fn width(&self) -> (width: u32)
        ensures
            width == self.spec_width(),
            width > 0,
    {
        proof {
            use_type_invariant(self);
        }
        self.width
    }

    /// Height of the frame in pixels.
    pub fn height(&self) -> (height: u32)
        ensures
            height == self.spec_height(),
            height > 0,
    {
        proof {
            use_type_invariant(self);
        }
        self.height
    }

    /// The images to create for the frame.
    pub fn images(&self) -> (images: &[ImageResource; 4])
        ensures
            *images == self.spec_images(),
            self.consistent(),
    {
        proof {
            use_type_invariant(self);
        }
        &self.image_views
    }

    /// The staging buffers to create for the frame.
    pub fn buffers(&self) -> (buffers: &[BufferResource; 2])
        ensures
            *buffers == self.spec_buffers(),
            self.consistent(),
    {
        proof {
            use_type_invariant(self);
        }
        &self.buffers
    }

    /// The grid of work groups on which every stage of the frame runs.
    pub fn work_groups(&self) -> (grid: [u32; 3])
        ensures
            grid == self.spec_work_groups(),
            self.consistent(),
    {
        proof {
            use_type_invariant(self);
        }
        self.work_groups
    }

    /// The grid of work groups on which the stage of `shader` runs: the
    /// frame's extent in tiles of the shader, rounded upward.
    pub fn stage_grid(&self, shader: Shader) -> (grid: [u32; 3])
        ensures
            grid == stage_grid(self.spec_width(), self.spec_height(), shader),
            grid == self.spec_work_groups(),
    {
        proof {
            use_type_invariant(self);
        }
        work_groups(self.width, self.height, shader.tile())
    }

    /// The queue family that the frame's command buffers are allocated for.
    pub fn queue_family_index(&self) -> (index: usize)
        ensures
            index == self.spec_queue_family_index(),
    {
        self.queue_family_index
    }

    /// Number of bytes of the result: four for every pixel of the frame.
    pub fn output_len(&self) -> (len: usize)
        ensures
            len == self.spec_output_len(),
            len == self.spec_width() * self.spec_height() * 4,
            len <= i32::MAX,
    {
        proof {
            use_type_invariant(self);
        }
        self.buffers[1].byte_len as usize
    }

    /// The two transfers of the frame: the upload of the raw bytes into the
    /// raw image, and the download of the quantized image into the output buffer.
    pub fn copy_commands(&self) -> (commands: [Command; 2])
        ensures
            commands[0]@ == upload_command(),
            commands[1]@ == download_command(),
    {
        [
            Command::CopyBufferToImage { buffer: INPUT_BUFFER, image: RAW_IMAGE },
            Command::CopyImageToBuffer { image: QUANTIZED_IMAGE, buffer: OUTPUT_BUFFER },
        ]
    }

    /// Records the command buffers of the frame.
    ///
    /// The compute command buffer holds the upload and then the four stages
    /// in order; the readback command buffer holds the download. The
    /// parameter blocks are filled from the frame parameters: the normalize
    /// stage gets the white level and the first black level, the demosaic
    /// stage the plane order of the arrangement, the colour-correction stage
    /// the two matrices in padded form. The matrices and gains are bit
    /// patterns of 32-bit floats. No stage has a field for the gains.
    ///
    /// Fails with `ShaderLoadFailure` exactly if the modules are not those of
    /// the four stages in order. Otherwise fails with `SubmissionFailure`
    /// exactly if `context` runs another queue family than the frame was
    /// planned for or the parameters are not usable.
    pub fn process(
        &self,
        context: &PipelineContext,
        shaders: &[ShaderModule; 4],
        color_filter_arrangement: i32,
        white_level: i32,
        black_level: [i32; 4],
        color_gains: [u32; 4],
        forward_matrix_1: [u32; 9],
        forward_matrix_2: [u32; 9],
    ) -> (made: Result<FramePlan, PipelineError>)
        ensures
            match made {
                Ok(plan) => {
                    &&& shaders_in_order(*shaders)
                    &&& context.queue_family_index == self.spec_queue_family_index()
                    &&& parameters_usable(
                        color_filter_arrangement as int,
                        white_level as int,
                        black_level,
                    )
                    &&& plan.compute@ == compute_commands(
                        self.spec_width(),
                        self.spec_height(),
                        normalize_block(white_level as int, black_level),
                        demosaic_block(color_filter_arrangement as int),
                        Stage3Parameters::spec_from_matrices(forward_matrix_1, forward_matrix_2),
                    )
                    &&& plan.readback@ == seq![download_command()]
                    &&& respects_dependencies(Set::empty(), plan.compute@)
                    &&& respects_dependencies(
                        state_after(Set::empty(), plan.compute@).written,
                        plan.readback@,
                    )
                },
                Err(PipelineError::ShaderLoadFailure) => !shaders_in_order(*shaders),
                Err(PipelineError::SubmissionFailure) => {
                    &&& shaders_in_order(*shaders)
                    &&& !(context.queue_family_index == self.spec_queue_family_index()
                        && parameters_usable(
                        color_filter_arrangement as int,
                        white_level as int,
                        black_level,
                    ))
                },
                Err(_) => false,
            },
    {
        if !modules_in_order(shaders) {
            return Err(PipelineError::ShaderLoadFailure);
        }
        if context.queue_family_index != self.queue_family_index {
            return Err(PipelineError::SubmissionFailure);
        }
        let arrangement = match ColorFilterArrangement::from_code(color_filter_arrangement) {
            Some(arrangement) => arrangement,
            None => {
                return Err(PipelineError::SubmissionFailure);
            },
        };
        if white_level < 0 || black_level[0] < 0 {
            return Err(PipelineError::SubmissionFailure);
        }
        let normalize = Stage1Parameters {
            white_level: white_level as u32,
            black_level: black_level[0] as u32,
        };
        let demosaic = Stage2Parameters { cfa: arrangement.permutation() };
        let correct = Stage3Parameters::from_matrices(&forward_matrix_1, &forward_matrix_2);
        let mut compute = CommandSequence::new();
        compute.record(Command::CopyBufferToImage { buffer: INPUT_BUFFER, image: RAW_IMAGE });
        assert(compute@ =~= seq![upload_command()]);
        match stage_1::setup_and_dispatch(
            &shaders[0],
            &mut compute,
            self.stage_grid(Shader::Finishing1),
            RAW_IMAGE,
            NORMALIZED_IMAGE,
            normalize,
        ) {
            Ok(_) => {},
            Err(e) => {
                return Err(e);
            },
        }
        match stage_2::setup_and_dispatch(
            &shaders[1],
            &mut compute,
            self.stage_grid(Shader::Finishing2),
            NORMALIZED_IMAGE,
            RGBA_IMAGE,
            demosaic,
        ) {
            Ok(_) => {},
            Err(e) => {
                return Err(e);
            },
        }
        match stage_3::setup_and_dispatch(
            &shaders[2],
            &mut compute,
            self.stage_grid(Shader::Finishing3),
            RGBA_IMAGE,
            correct,
        ) {
            Ok(_) => {},
            Err(e) => {
                return Err(e);
            },
        }
        match stage_4::setup_and_dispatch(
            &shaders[3],
            &mut compute,
            self.stage_grid(Shader::Finishing4),
            RGBA_IMAGE,
            QUANTIZED_IMAGE,
        ) {
            Ok(_) => {},
            Err(e) => {
                return Err(e);
            },
        }
        let mut readback = CommandSequence::new();
        readback.record(
            Command::CopyImageToBuffer { image: QUANTIZED_IMAGE, buffer: OUTPUT_BUFFER },
        );
        proof {
            assert(readback@ =~= seq![download_command()]);
            lemma_frame_commands_respect_dependencies(
                self.spec_width(),
                self.spec_height(),
                normalize,
                demosaic,
                correct,
            );
        }
        Ok(FramePlan { compute, readback })
    }

    /// Copies the result out of the mapped output buffer.
    ///
    /// The bytes count as the result only when the device has completed the
    /// frame: `run` must have come to the step that reads the output, which
    /// it proposes only after both waits have succeeded. Otherwise the
    /// outcome is `SynchronizationFailure`. If the frame is due but `mapped`
    /// has not the length of the output buffer, the outcome is
    /// `AllocationFailure`. On success the result is a copy of `mapped`,
    /// four bytes for every pixel of the frame.
    pub fn read_output_buffer(&self, run: &FrameRun, mapped: &[u8]) -> (read: Result<
        Vec<u8>,
        PipelineError,
    >)
        ensures
            match read {
                Ok(bytes) => {
                    &&& run@.next() == Action::Perform(Step::ReadOutput)
                    &&& bytes@ == mapped@
                    &&& bytes@.len() == self.spec_output_len()
                    &&& bytes@.len() == self.spec_width() * self.spec_height() * 4
                },
                Err(PipelineError::SynchronizationFailure) => run@.next() != Action::Perform(
                    Step::ReadOutput,
                ),
                Err(PipelineError::AllocationFailure) => {
                    &&& run@.next() == Action::Perform(Step::ReadOutput)
                    &&& mapped@.len() != self.spec_output_len()
                },
                Err(_) => false,
            },
    {
        match run.next() {
            Action::Perform(Step::ReadOutput) => {},
            _ => {
                return Err(PipelineError::SynchronizationFailure);
            },
        }
        let expected: usize = self.output_len();
        if mapped.len() != expected {
            return Err(PipelineError::AllocationFailure);
        }
        let mut bytes: Vec<u8> = Vec::with_capacity(expected);
        let mut i: usize = 0;
        while i < expected
            invariant
                i <= expected,
                expected == mapped@.len(),
                bytes@ == mapped@.subrange(0, i as int),
            decreases expected - i,
        {
            bytes.push(mapped[i]);
            i += 1;
        }
        Ok(bytes)
    }
}

/// The parameter block of the demosaic stage for an arrangement code that
/// names a Bayer order.
pub open spec fn demosaic_block(color_filter_arrangement: int) -> Stage2Parameters {
    Stage2Parameters {
        cfa: ColorFilterArrangement::spec_from_code(color_filter_arrangement)->0.spec_permutation(),
    }
}

/// Tests that the four modules are those of the four stages, in order.
fn modules_in_order(shaders: &[ShaderModule; 4]) -> (b: bool)
    ensures
        b == shaders_in_order(*shaders),
{
    let first = match shaders[0].shader() {
        Shader::Finishing1 => true,
        _ => false,
    };
    let second = match shaders[1].shader() {
        Shader::Finishing2 => true,
        _ => false,
    };
    let third = match shaders[2].shader() {
        Shader::Finishing3 => true,
        _ => false,
    };
    let fourth = match shaders[3].shader() {
        Shader::Finishing4 => true,
        _ => false,
    };
    first && second && third && fourth
}

/// In the command buffers of a frame no command reads an image before it
/// is written: the upload fills the raw image before the first stage reads
/// it, every later stage reads what the stage before it wrote, and, once
/// the compute command buffer has completed, the download finds the
/// quantized image written. This holds for every extent and all parameters.
pub proof fn lemma_frame_commands_respect_dependencies(
    width: int,
    height: int,
    normalize: Stage1Parameters,
    demosaic: Stage2Parameters,
    correct: Stage3Parameters,
)
    ensures
        respects_dependencies(
            Set::empty(),
            compute_commands(width, height, normalize, demosaic, correct),
        ),
        state_after(
            Set::empty(),
            compute_commands(width, height, normalize, demosaic, correct),
        ).written.contains(QUANTIZED_IMAGE),
        respects_dependencies(
            state_after(
                Set::empty(),
                compute_commands(width, height, normalize, demosaic, correct),
            ).written,
            seq![download_command()],
        ),
{
    let none = Set::<usize>::empty();
    let uploaded = seq![upload_command()];
    assert(uploaded =~= Seq::<CommandView>::empty().push(upload_command()));
    lemma_state_after_push(none, Seq::<CommandView>::empty(), upload_command());
    let after_upload = state_after(none, uploaded);
    assert(after_upload.written.contains(RAW_IMAGE));
    assert(after_upload.sound);

    let normalize_pipeline = ComputePipeline { shader: Shader::Finishing1 };
    let normalize_set = stage_1::descriptor_set(RAW_IMAGE, NORMALIZED_IMAGE);
    let normalized = uploaded + stage_1::commands(stage_grid(width, height, Shader::Finishing1), RAW_IMAGE, NORMALIZED_IMAGE, normalize);
    lemma_state_after_stage(none, uploaded, normalize_pipeline, StageParameters::Normalize(normalize), normalize_set, stage_grid(width, height, Shader::Finishing1));
    let after_normalize = state_after(none, normalized);
    assert(normalize_set.writes[1].image_view == NORMALIZED_IMAGE);
    assert(outputs(normalize_pipeline.shader, normalize_set).contains(NORMALIZED_IMAGE));
    assert(after_normalize.sound && after_normalize.written.contains(NORMALIZED_IMAGE));

    let demosaic_pipeline = ComputePipeline { shader: Shader::Finishing2 };
    let demosaic_set = stage_2::descriptor_set(NORMALIZED_IMAGE, RGBA_IMAGE);
    let demosaiced = normalized + stage_2::commands(stage_grid(width, height, Shader::Finishing2), NORMALIZED_IMAGE, RGBA_IMAGE, demosaic);
    lemma_state_after_stage(none, normalized, demosaic_pipeline, StageParameters::Demosaic(demosaic), demosaic_set, stage_grid(width, height, Shader::Finishing2));
    let after_demosaic = state_after(none, demosaiced);
    assert(demosaic_set.writes[1].image_view == RGBA_IMAGE);
    assert(outputs(demosaic_pipeline.shader, demosaic_set).contains(RGBA_IMAGE));
    assert(after_demosaic.sound && after_demosaic.written.contains(RGBA_IMAGE));

    let correct_pipeline = ComputePipeline { shader: Shader::Finishing3 };
    let correct_set = stage_3::descriptor_set(RGBA_IMAGE);
    let corrected = demosaiced + stage_3::commands(stage_grid(width, height, Shader::Finishing3), RGBA_IMAGE, correct);
    lemma_state_after_stage(none, demosaiced, correct_pipeline, StageParameters::ColorCorrect(correct), correct_set, stage_grid(width, height, Shader::Finishing3));
    let after_correct = state_after(none, corrected);
    assert(after_correct.sound && after_correct.written.contains(RGBA_IMAGE));

    let quantize_pipeline = ComputePipeline { shader: Shader::Finishing4 };
    let quantize_set = stage_4::descriptor_set(RGBA_IMAGE, QUANTIZED_IMAGE);
    let quantized = corrected + stage_4::commands(stage_grid(width, height, Shader::Finishing4), RGBA_IMAGE, QUANTIZED_IMAGE);
    lemma_state_after_stage(none, corrected, quantize_pipeline, StageParameters::Absent, quantize_set, stage_grid(width, height, Shader::Finishing4));
    let after_quantize = state_after(none, quantized);
    assert(quantize_set.writes[1].image_view == QUANTIZED_IMAGE);
    assert(outputs(quantize_pipeline.shader, quantize_set).contains(QUANTIZED_IMAGE));
    assert(after_quantize.sound && after_quantize.written.contains(QUANTIZED_IMAGE));
    assert(quantized == compute_commands(width, height, normalize, demosaic, correct));

    let r = seq![download_command()];
    assert(r =~= Seq::<CommandView>::empty().push(download_command()));
    lemma_state_after_push(after_quantize.written, Seq::<CommandView>::empty(), download_command());
}

} // verus!
