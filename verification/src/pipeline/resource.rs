use vstd::prelude::*;

verus! {

/// Side of the square tile of pixels that one work group of every stage covers.
pub const TILE: u32 = 8;

/// Number of tiles of side `tile` needed to cover `n` pixels, rounding upward.
pub open spec fn tiles_needed(n: int, tile: int) -> int {
    (n + tile - 1) / tile
}

/// The dispatch grid that covers a `width` by `height` frame with square
/// tiles of side `tile`: one layer of `ceil(width / tile)` by
/// `ceil(height / tile)` work groups.
pub open spec fn dispatch_grid(width: int, height: int, tile: int) -> [u32; 3] {
    [tiles_needed(width, tile) as u32, tiles_needed(height, tile) as u32, 1u32]
}

/// Adding one divisor to the numerator adds one to the quotient.
proof fn lemma_tiles_step(n: int, tile: int)
    requires
        tile > 0,
    ensures
        (n + tile) / tile == n / tile + 1,
{
    vstd::arithmetic::div_mod::lemma_div_plus_one(n, tile);
}

/// Counts the tiles of side `tile` that cover `n` pixels.
pub fn tiles(n: u32, tile: u32) -> (count: u32)
    requires
        tile > 0,
    ensures
        count == tiles_needed(n as int, tile as int),
        n > 0 ==> count >= 1,
        (count as int) * (tile as int) >= n,
        n > 0 ==> (count as int - 1) * (tile as int) < n,
{
    if n == 0 {
        proof {
            vstd::arithmetic::div_mod::lemma_basic_div(tile as int - 1, tile as int);
        }
        0
    } else {
        let count: u32 = (n - 1) / tile + 1;
        proof {
            lemma_tiles_step(n as int - 1, tile as int);
            vstd::arithmetic::div_mod::lemma_fundamental_div_mod(n as int - 1, tile as int);
            vstd::arithmetic::div_mod::lemma_mod_bound(n as int - 1, tile as int);
            vstd::arithmetic::div_mod::lemma_div_pos_is_pos(n as int - 1, tile as int);
            let quotient = (n - 1) / (tile as int);
            assert((quotient + 1) * (tile as int) == quotient * (tile as int) + tile)
                by (nonlinear_arith);
        }
        count
    }
}

/// The dispatch grid for a frame, as `[x, y, z]` work-group counts.
pub fn work_groups(width: u32, height: u32, tile: u32) -> (grid: [u32; 3])
    requires
        tile > 0,
    ensures
        grid == dispatch_grid(width as int, height as int, tile as int),
        grid[0] == tiles_needed(width as int, tile as int),
        grid[1] == tiles_needed(height as int, tile as int),
        grid[2] == 1,
{
    let x: u32 = tiles(width, tile);
    let y: u32 = tiles(height, tile);
    [x, y, 1]
}

/// Texel formats of the images a frame passes through.
#[derive(Clone, Copy, Debug, PartialEq, Eq, Structural)]
pub enum Format {
    /// One unsigned 16-bit integer channel.
    R16Uint,
    /// One 16-bit float channel.
    R16Sfloat,
    /// Four 16-bit float channels.
    R16G16B16A16Sfloat,
    /// Four 8-bit unsigned normalized channels.
    R8G8B8A8Unorm,
}

impl Format {
    /// Bytes that one texel of the format occupies.
    pub open spec fn spec_texel_size(self) -> int {
        match self {
            Format::R16Uint => 2,
            Format::R16Sfloat => 2,
            Format::R16G16B16A16Sfloat => 8,
            Format::R8G8B8A8Unorm => 4,
        }
    }

    /// Bytes that one texel of the format occupies.
    pub fn texel_size(&self) -> (size: u32)
        ensures
            size == self.spec_texel_size(),
    {
        match self {
            Format::R16Uint => 2,
            Format::R16Sfloat => 2,
            Format::R16G16B16A16Sfloat => 8,
            Format::R8G8B8A8Unorm => 4,
        }
    }
}

/// What an image may be used for.
#[derive(Clone, Copy, Debug, PartialEq, Eq, Structural)]
pub struct ImageUsage {
    pub storage: bool,
    pub transfer_src: bool,
    pub transfer_dst: bool,
}

/// A device image of a frame.
#[derive(Clone, Copy, Debug, PartialEq, Eq)]
pub struct ImageResource {
    pub format: Format,
    /// Width, height and depth in texels.
    pub extent: [u32; 3],
    pub usage: ImageUsage,
}

/// What a buffer may be used for.
#[derive(Clone, Copy, Debug, PartialEq, Eq, Structural)]
pub struct BufferUsage {
    pub transfer_src: bool,
    pub transfer_dst: bool,
}

/// A staging buffer of a frame.
#[derive(Clone, Copy, Debug, PartialEq, Eq, Structural)]
pub struct BufferResource {
    pub byte_len: u64,
    /// Whether the host can map the buffer's memory.
    pub host_visible: bool,
    pub usage: BufferUsage,
}

} // verus!
