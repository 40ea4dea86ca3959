use vstd::prelude::*;
use crate::error::PipelineError;
use crate::pipeline::resource::TILE;

verus! {

/// The compute programs of the pipeline, in the order in which they run.
#[derive(Clone, Copy, Debug, PartialEq, Eq, Structural)]
pub enum Shader {
    /// Normalizes raw sensor values to the unit interval.
    Finishing1,
    /// Reconstructs full colour from the mosaic.
    Finishing2,
    /// Applies the colour-correction matrices in place.
    Finishing3,
    /// Quantizes to 8 bits per channel.
    Finishing4,
}

/// How a shader touches an image that is bound to it.
#[derive(Clone, Copy, Debug, PartialEq, Eq, Structural)]
pub enum Access {
    Read,
    Write,
    ReadWrite,
}

impl Access {
    pub open spec fn reads(self) -> bool {
        self != Access::Write
    }

    pub open spec fn writes(self) -> bool {
        self != Access::Read
    }
}

impl Shader {
    /// Position of the shader in the pipeline, counted from zero.
    pub open spec fn spec_index(self) -> int {
        match self {
            Shader::Finishing1 => 0,
            Shader::Finishing2 => 1,
            Shader::Finishing3 => 2,
            Shader::Finishing4 => 3,
        }
    }

    /// Position of the shader in the pipeline, counted from zero.
    pub fn index(&self) -> (i: usize)
        ensures
            i == self.spec_index(),
    {
        match self {
            Shader::Finishing1 => 0,
            Shader::Finishing2 => 1,
            Shader::Finishing3 => 2,
            Shader::Finishing4 => 3,
        }
    }

    /// The logical name under which the shader's binary artifact is found.
    pub open spec fn spec_name(self) -> Seq<char> {
        match self {
            Shader::Finishing1 => "finishing_1"@,
            Shader::Finishing2 => "finishing_2"@,
            Shader::Finishing3 => "finishing_3"@,
            Shader::Finishing4 => "finishing_4"@,
        }
    }

    /// The logical name under which the shader's binary artifact is found.
    pub fn name(&self) -> (name: &'static str)
        ensures
            name@ == self.spec_name(),
    {
        match self {
            Shader::Finishing1 => "finishing_1",
            Shader::Finishing2 => "finishing_2",
            Shader::Finishing3 => "finishing_3",
            Shader::Finishing4 => "finishing_4",
        }
    }

    /// Number of images that the shader declares in descriptor set 0.
    pub open spec fn spec_binding_count(self) -> int {
        match self {
            Shader::Finishing3 => 1,
            _ => 2,
        }
    }

    /// Number of images that the shader declares in descriptor set 0.
    pub fn binding_count(&self) -> (count: u32)
        ensures
            count == self.spec_binding_count(),
    {
        match self {
            Shader::Finishing3 => 1,
            _ => 2,
        }
    }

    /// How the shader touches the image at `binding`: the colour-correction
    /// shader updates its one image in place; every other shader reads
    /// binding 0 and writes binding 1.
    pub open spec fn spec_access(self, binding: int) -> Access {
        if self == Shader::Finishing3 {
            Access::ReadWrite
        } else if binding == 0 {
            Access::Read
        } else {
            Access::Write
        }
    }

    /// How the shader touches the image at `binding`.
    pub fn access(&self, binding: u32) -> (access: Access)
        ensures
            access == self.spec_access(binding as int),
    {
        match self {
            Shader::Finishing3 => Access::ReadWrite,
            _ => if binding == 0 {
                Access::Read
            } else {
                Access::Write
            },
        }
    }

    /// Side of the square tile of pixels that one work group of the shader
    /// covers. Every shader is compiled for the common tile.
    pub open spec fn spec_tile(self) -> int {
        TILE as int
    }

    /// Side of the square tile of pixels that one work group of the shader covers.
    pub fn tile(&self) -> (side: u32)
        ensures
            side == self.spec_tile(),
            side == TILE,
            side > 0,
    {
        TILE
    }

    /// The shaders agree on their tile: that of every shader is the common
    /// tile, so that one grid of work groups serves all stages of a frame.
    pub proof fn lemma_tile_is_common(self)
        ensures
            self.spec_tile() == TILE,
            self.spec_tile() > 0,
            forall|other: Shader| #[trigger] other.spec_tile() == self.spec_tile(),
    {
    }
}

/// The first word of every SPIR-V module.
pub const SPIRV_MAGIC: u32 = 0x0723_0203;

/// Number of words in the header of a SPIR-V module.
pub const SPIRV_HEADER_WORDS: usize = 5;

/// The 32-bit word that four bytes hold in little-endian order.
pub open spec fn le_word(b0: u8, b1: u8, b2: u8, b3: u8) -> int {
    b0 as int + 256 * (b1 as int) + 65536 * (b2 as int) + 16777216 * (b3 as int)
}

/// The `i`-th little-endian word of `bytes`.
pub open spec fn word_at(bytes: Seq<u8>, i: int) -> u32 {
    le_word(bytes[4 * i], bytes[4 * i + 1], bytes[4 * i + 2], bytes[4 * i + 3]) as u32
}

/// The little-endian words that `bytes` hold; a tail of fewer than four
/// bytes holds none.
pub open spec fn words_of(bytes: Seq<u8>) -> Seq<u32> {
    Seq::new((bytes.len() / 4) as nat, |i: int| word_at(bytes, i))
}

/// `bytes` frame a SPIR-V module: whole words, at least a header, and the
/// magic number in front.
pub open spec fn is_spirv(bytes: Seq<u8>) -> bool {
    &&& bytes.len() % 4 == 0
    &&& bytes.len() >= 4 * SPIRV_HEADER_WORDS
    &&& word_at(bytes, 0) == SPIRV_MAGIC
}

/// The error of `vulkano::shader::spirv::bytes_to_words`. It carries nothing.
#[verifier::external_type_specification]
#[verifier::external_body]
pub struct ExSpirvBytesNotMultipleOf4(vulkano::shader::spirv::SpirvBytesNotMultipleOf4);

/// Calls `vulkano::shader::spirv::bytes_to_words`, which turns the bytes of
/// a SPIR-V binary into words.
///
/// Trusted, not proved: the call fails exactly if the number of bytes is
/// not a multiple of four, and otherwise gives one word for every four
/// bytes, each read in little-endian order whatever the byte order of the
/// machine.
#[verifier::external_body]
fn bytes_to_words(bytes: &[u8]) -> (converted: Result<
    Vec<u32>,
    vulkano::shader::spirv::SpirvBytesNotMultipleOf4,
>)
    ensures
        match converted {
            Ok(words) => bytes@.len() % 4 == 0 && words@ == words_of(bytes@),
            Err(_) => bytes@.len() % 4 != 0,
        },
{
    match vulkano::shader::spirv::bytes_to_words(bytes) {
        Ok(words) => Ok(words.into_owned()),
        Err(error) => Err(error),
    }
}

/// A shader binary that has passed framing: the words of one SPIR-V module
/// together with the shader it was loaded for.
pub struct ShaderModule {
    shader: Shader,
    words: Vec<u32>,
}

impl ShaderModule {
    #[verifier::type_invariant]
    spec fn well_formed(self) -> bool {
        &&& self.words@.len() >= SPIRV_HEADER_WORDS
        &&& self.words@[0] == SPIRV_MAGIC
    }

    /// The shader that the module was loaded for.
    pub closed spec fn spec_shader(self) -> Shader {
        self.shader
    }

    /// The words of the module.
    pub closed spec fn spec_words(self) -> Seq<u32> {
        self.words@
    }

    /// Frames the bytes of a binary artifact as the module of `shader`.
    ///
    /// Succeeds exactly on byte strings that hold whole little-endian words,
    /// at least a SPIR-V header, and the SPIR-V magic number as first word.
    pub fn from_bytes(shader: Shader, bytes: &[u8]) -> (made: Result<ShaderModule, PipelineError>)
        ensures
            match made {
                Ok(module) => {
                    &&& is_spirv(bytes@)
                    &&& module.spec_shader() == shader
                    &&& module.spec_words() == words_of(bytes@)
                },
                Err(e) => e == PipelineError::ShaderLoadFailure && !is_spirv(bytes@),
            },
    {
        let words = match bytes_to_words(bytes) {
            Ok(words) => words,
            Err(_) => {
                return Err(PipelineError::ShaderLoadFailure);
            },
        };
        if words.len() < SPIRV_HEADER_WORDS || words[0] != SPIRV_MAGIC {
            return Err(PipelineError::ShaderLoadFailure);
        }
        Ok(ShaderModule { shader, words })
    }

    /// The shader that the module was loaded for.
    pub fn shader(&self) -> (shader: Shader)
        ensures
            shader == self.spec_shader(),
    {
        self.shader
    }

    /// The words of the module, as the device expects them.
    pub fn words(&self) -> (words: &Vec<u32>)
        ensures
            words@ == self.spec_words(),
            words@.len() >= SPIRV_HEADER_WORDS,
            words@[0] == SPIRV_MAGIC,
    {
        proof {
            use_type_invariant(self);
        }
        &self.words
    }

    /// The name of the entry point, the same in every module.
    pub fn entry_point(&self) -> (name: &'static str)
        ensures
            name@ == "main"@,
    {
        "main"
    }
}

} // verus!
