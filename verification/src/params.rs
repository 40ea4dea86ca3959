use vstd::prelude::*;

verus! {

/// The four Bayer orders of a 2x2 mosaic tile, named by the colours of the
/// tile read row by row.
#[derive(Clone, Copy, Debug, PartialEq, Eq, Structural)]
pub enum ColorFilterArrangement {
    Rggb,
    Grbg,
    Gbrg,
    Bggr,
}

impl ColorFilterArrangement {
    /// The arrangement that a sensor reports under `code`, if `code` names a
    /// Bayer order: 0 is RGGB, 1 is GRBG, 2 is GBRG and 3 is BGGR.
    pub open spec fn spec_from_code(code: int) -> Option<ColorFilterArrangement> {
        if code == 0 {
            Some(ColorFilterArrangement::Rggb)
        } else if code == 1 {
            Some(ColorFilterArrangement::Grbg)
        } else if code == 2 {
            Some(ColorFilterArrangement::Gbrg)
        } else if code == 3 {
            Some(ColorFilterArrangement::Bggr)
        } else {
            None
        }
    }

    /// Decodes the arrangement code that a sensor reports.
    pub fn from_code(code: i32) -> (arrangement: Option<ColorFilterArrangement>)
        ensures
            arrangement == Self::spec_from_code(code as int),
            arrangement is Some <==> 0 <= code <= 3,
    {
        match code {
            0 => Some(ColorFilterArrangement::Rggb),
            1 => Some(ColorFilterArrangement::Grbg),
            2 => Some(ColorFilterArrangement::Gbrg),
            3 => Some(ColorFilterArrangement::Bggr),
            _ => None,
        }
    }

    /// For each position of the tile, read row by row, the colour plane that
    /// the position samples. The planes are numbered 0 for red, 1 for the
    /// green of red rows, 2 for the green of blue rows and 3 for blue.
    pub open spec fn spec_permutation(self) -> [u32; 4] {
        match self {
            ColorFilterArrangement::Rggb => [0u32, 1u32, 2u32, 3u32],
            ColorFilterArrangement::Grbg => [1u32, 0u32, 3u32, 2u32],
            ColorFilterArrangement::Gbrg => [2u32, 3u32, 0u32, 1u32],
            ColorFilterArrangement::Bggr => [3u32, 2u32, 1u32, 0u32],
        }
    }

    /// The plane index of each tile position.
    pub fn permutation(&self) -> (planes: [u32; 4])
        ensures
            planes == self.spec_permutation(),
    {
        match self {
            ColorFilterArrangement::Rggb => [0, 1, 2, 3],
            ColorFilterArrangement::Grbg => [1, 0, 3, 2],
            ColorFilterArrangement::Gbrg => [2, 3, 0, 1],
            ColorFilterArrangement::Bggr => [3, 2, 1, 0],
        }
    }

    /// Every plane is sampled by exactly one position of the tile: applying
    /// the permutation twice gives every position back.
    pub proof fn permutation_is_involution(self)
        ensures
            forall|p: int| 0 <= p < 4 ==> 0 <= #[trigger] self.spec_permutation()[p] < 4,
            forall|p: int|
                0 <= p < 4 ==> self.spec_permutation()[(#[trigger] self.spec_permutation()[p]) as int]
                    == p,
    {
    }
}

/// Parameter block of the normalize stage: two 32-bit words.
#[derive(Clone, Copy, Debug, PartialEq, Eq, Structural)]
pub struct Stage1Parameters {
    /// Sensor value that maps to 1.
    pub white_level: u32,
    /// Sensor value that maps to 0.
    pub black_level: u32,
}

/// Parameter block of the demosaic stage: four 32-bit words.
#[derive(Clone, Copy, Debug, PartialEq, Eq)]
pub struct Stage2Parameters {
    /// The colour plane that each position of the mosaic tile samples.
    pub cfa: [u32; 4],
}

/// Parameter block of the colour-correction stage: two 3x3 matrices, each
/// stored as three rows of four 32-bit words. An entry is the bit pattern of
/// a 32-bit float; the fourth word of a row is padding and holds zero.
#[derive(Clone, Copy, Debug, PartialEq, Eq)]
pub struct Stage3Parameters {
    pub forward_matrix_1: [[u32; 4]; 3],
    pub forward_matrix_2: [[u32; 4]; 3],
}

/// Entry `(row, column)` of the padded form of a row-major 3x3 matrix.
pub open spec fn padded_entry(matrix: Seq<u32>, row: int, column: int) -> u32 {
    if column < 3 {
        matrix[3 * row + column]
    } else {
        0
    }
}

/// `rows` is the padded form of the row-major 3x3 matrix `matrix`.
pub open spec fn is_padded_matrix(rows: [[u32; 4]; 3], matrix: Seq<u32>) -> bool {
    forall|row: int, column: int|
        0 <= row < 3 && 0 <= column < 4 ==> #[trigger] rows[row][column] == padded_entry(
            matrix,
            row,
            column,
        )
}

/// The padded form of a row-major 3x3 matrix: three rows of four words,
/// the fourth word of each row zero.
pub open spec fn spec_pad_matrix(matrix: [u32; 9]) -> [[u32; 4]; 3] {
    [
        [matrix[0], matrix[1], matrix[2], 0u32],
        [matrix[3], matrix[4], matrix[5], 0u32],
        [matrix[6], matrix[7], matrix[8], 0u32],
    ]
}

/// Lays a row-major 3x3 matrix out in rows of four words, the last one zero.
pub fn pad_matrix(matrix: &[u32; 9]) -> (rows: [[u32; 4]; 3])
    ensures
        rows == spec_pad_matrix(*matrix),
        is_padded_matrix(rows, matrix@),
{
    [
        [matrix[0], matrix[1], matrix[2], 0],
        [matrix[3], matrix[4], matrix[5], 0],
        [matrix[6], matrix[7], matrix[8], 0],
    ]
}

impl Stage1Parameters {
    /// The block as the shader reads it: the white level, then the black level.
    pub open spec fn spec_words(self) -> Seq<u32> {
        seq![self.white_level, self.black_level]
    }
}

impl Stage2Parameters {
    /// The block as the shader reads it: the four plane indices in tile order.
    pub open spec fn spec_words(self) -> Seq<u32> {
        self.cfa@
    }
}

impl Stage3Parameters {
    /// The block as the shader reads it: the padded rows of the first
    /// matrix, then those of the second.
    pub open spec fn spec_words(self) -> Seq<u32> {
        Seq::new(
            24,
            |i: int|
                if i < 12 {
                    self.forward_matrix_1[i / 4][i % 4]
                } else {
                    self.forward_matrix_2[(i - 12) / 4][(i - 12) % 4]
                },
        )
    }

    /// The block that holds two row-major 3x3 matrices in padded form.
    pub open spec fn spec_from_matrices(
        forward_matrix_1: [u32; 9],
        forward_matrix_2: [u32; 9],
    ) -> Stage3Parameters {
        Stage3Parameters {
            forward_matrix_1: spec_pad_matrix(forward_matrix_1),
            forward_matrix_2: spec_pad_matrix(forward_matrix_2),
        }
    }

    /// Builds the block from two row-major 3x3 matrices of float bit patterns.
    pub fn from_matrices(forward_matrix_1: &[u32; 9], forward_matrix_2: &[u32; 9]) -> (block:
        Stage3Parameters)
        ensures
            block == Self::spec_from_matrices(*forward_matrix_1, *forward_matrix_2),
            is_padded_matrix(block.forward_matrix_1, forward_matrix_1@),
            is_padded_matrix(block.forward_matrix_2, forward_matrix_2@),
    {
        Stage3Parameters {
            forward_matrix_1: pad_matrix(forward_matrix_1),
            forward_matrix_2: pad_matrix(forward_matrix_2),
        }
    }
}

/// The inline parameters of one stage.
#[derive(Clone, Copy, Debug, PartialEq, Eq)]
pub enum StageParameters {
    /// The stage takes no parameters.
    Absent,
    Normalize(Stage1Parameters),
    Demosaic(Stage2Parameters),
    ColorCorrect(Stage3Parameters),
}

impl StageParameters {
    /// The 32-bit words of the block, in the order in which the shader
    /// declares its fields, without gaps.
    pub open spec fn spec_words(self) -> Seq<u32> {
        match self {
            StageParameters::Absent => Seq::empty(),
            StageParameters::Normalize(block) => block.spec_words(),
            StageParameters::Demosaic(block) => block.spec_words(),
            StageParameters::ColorCorrect(block) => block.spec_words(),
        }
    }

    /// Size of the block in bytes.
    pub open spec fn spec_byte_size(self) -> int {
        4 * (self.spec_words().len() as int)
    }

    /// Size of the block in bytes: 0, 8, 16 or 96.
    pub fn byte_size(&self) -> (size: u32)
        ensures
            size == self.spec_byte_size(),
    {
        match self {
            StageParameters::Absent => 0,
            StageParameters::Normalize(_) => 8,
            StageParameters::Demosaic(_) => 16,
            StageParameters::ColorCorrect(_) => 96,
        }
    }

    /// Writes the block out word by word.
    pub fn words(&self) -> (words: Vec<u32>)
        ensures
            words@ == self.spec_words(),
    {
        let mut words: Vec<u32> = Vec::new();
        match self {
            StageParameters::Absent => {},
            StageParameters::Normalize(block) => {
                words.push(block.white_level);
                words.push(block.black_level);
            },
            StageParameters::Demosaic(block) => {
                let mut i: usize = 0;
                while i < 4
                    invariant
                        i <= 4,
                        words@ == block.cfa@.subrange(0, i as int),
                    decreases 4 - i,
                {
                    words.push(block.cfa[i]);
                    i += 1;
                }
            },
            StageParameters::ColorCorrect(block) => {
                let mut i: usize = 0;
                while i < 24
                    invariant
                        i <= 24,
                        words@ == block.spec_words().subrange(0, i as int),
                    decreases 24 - i,
                {
                    let word: u32 = if i < 12 {
                        block.forward_matrix_1[i / 4][i % 4]
                    } else {
                        block.forward_matrix_2[(i - 12) / 4][(i - 12) % 4]
                    };
                    words.push(word);
                    i += 1;
                }
            },
        }
        words
    }
}

} // verus!
