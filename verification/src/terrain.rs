//! The rules that turn noise samples into voxels.
//!
//! A column of cells stands over every `(x, z)`. One sample of a two-dimensional
//! noise field, the column's height sample, decides which of its cells are
//! solid. The colour of a solid cell is either a constant or made of three
//! samples of a three-dimensional field, taken at three points a hundred units
//! apart.

use vstd::prelude::*;
use crate::units::{toward_zero, UNIT};

verus! {

/// The distance, in millionths, between the height sample points of two
/// neighbouring columns: a hundredth.
pub const HEIGHT_STEP: i64 = 10_000;

/// The distance, in millionths, between the colour sample points of two
/// neighbouring cells: a tenth.
pub const COLOR_STEP: i64 = 100_000;

/// How far apart the sample points of the three channels lie: a hundred units.
pub const CHANNEL_OFFSET: i64 = 100_000_000;

/// What is added to twice the height sample before it is held against a tenth
/// of `y`: five. Over a height sample of zero the cells below `y = 50` are
/// solid.
pub const BASE_HEIGHT: i64 = 5_000_000;

/// The red of the constant colour: 0.7.
pub const FLAT_RED: i32 = 700_000;

/// The green of the constant colour: 0.3.
pub const FLAT_GREEN: i32 = 300_000;

/// The blue of the constant colour: 0.2.
pub const FLAT_BLUE: i32 = 200_000;

/// The colour of one cell. Channels are in millionths; `a` is `UNIT` for a
/// solid cell and zero for a cell that was never set.
#[derive(Clone, Copy, PartialEq, Eq, Debug, Structural)]
pub struct Rgba {
    pub r: i32,
    pub g: i32,
    pub b: i32,
    pub a: i32,
}

/// Where the colour of a solid cell comes from.
#[derive(Clone, Copy, PartialEq, Eq, Debug, Structural)]
pub enum ColorMode {
    /// Three samples of the colour field, one per channel.
    NoiseDerived,
    /// The constant colour (0.7, 0.3, 0.2).
    FlatConstant,
}

/// The value of a cell that was never set: fully transparent.
pub open spec fn unset() -> Rgba {
    Rgba { r: 0, g: 0, b: 0, a: 0 }
}

/// The constant colour, opaque.
pub open spec fn flat_color() -> Rgba {
    Rgba { r: FLAT_RED, g: FLAT_GREEN, b: FLAT_BLUE, a: UNIT }
}

/// Whether the cell at height `y` is solid in a column whose height sample is
/// `height`: twice the sample plus five exceeds a tenth of `y`.
pub open spec fn solid(height: int, y: int) -> bool {
    2 * height + BASE_HEIGHT > y * COLOR_STEP
}

/// The colour channel that a noise sample gives: half the sample plus a half.
pub open spec fn channel(sample: int) -> int {
    toward_zero(sample + UNIT, 2)
}

/// The opaque colour that three noise samples give.
pub open spec fn noise_color(red: i32, green: i32, blue: i32) -> Rgba {
    Rgba {
        r: channel(red as int) as i32,
        g: channel(green as int) as i32,
        b: channel(blue as int) as i32,
        a: UNIT,
    }
}

/// The colour of the cell at height `y` in a column whose height sample is
/// `height`, given the three samples of the colour field that belong to the
/// cell: unset where the cell is not solid; else the constant colour or the
/// colour of the three samples, as the mode says.
pub open spec fn cell_value(
    mode: ColorMode,
    height: i32,
    y: u32,
    red: i32,
    green: i32,
    blue: i32,
) -> Rgba {
    if solid(height as int, y as int) {
        match mode {
            ColorMode::FlatConstant => flat_color(),
            ColorMode::NoiseDerived => noise_color(red, green, blue),
        }
    } else {
        unset()
    }
}

/// The point at which the height field is asked for the column over `(x, z)`:
/// `(x / 100, z / 100)`.
pub open spec fn spec_height_point(x: u32, z: u32) -> (i64, i64) {
    ((x * HEIGHT_STEP) as i64, (z * HEIGHT_STEP) as i64)
}

/// The point at which the colour field is asked for the red of cell
/// `(x, y, z)`: `(x / 10, y / 10, z / 10 - 100)`.
pub open spec fn spec_red_point(x: u32, y: u32, z: u32) -> (i64, i64, i64) {
    ((x * COLOR_STEP) as i64, (y * COLOR_STEP) as i64, (z * COLOR_STEP - CHANNEL_OFFSET) as i64)
}

/// The point at which the colour field is asked for the green of cell
/// `(x, y, z)`: `(x / 10, y / 10 + 100, z / 10)`.
pub open spec fn spec_green_point(x: u32, y: u32, z: u32) -> (i64, i64, i64) {
    ((x * COLOR_STEP) as i64, (y * COLOR_STEP + CHANNEL_OFFSET) as i64, (z * COLOR_STEP) as i64)
}

/// The point at which the colour field is asked for the blue of cell
/// `(x, y, z)`: `(x / 10 - 100, y / 10, z / 10)`.
pub open spec fn spec_blue_point(x: u32, y: u32, z: u32) -> (i64, i64, i64) {
    ((x * COLOR_STEP - CHANNEL_OFFSET) as i64, (y * COLOR_STEP) as i64, (z * COLOR_STEP) as i64)
}

impl Rgba {
    /// The value of a cell that was never set.
    pub fn unset() -> (c: Rgba)
        ensures
            c == unset(),
    {
        Rgba { r: 0, g: 0, b: 0, a: 0 }
    }

    /// The constant colour, opaque.
    pub fn flat() -> (c: Rgba)
        ensures
            c == flat_color(),
    {
        Rgba { r: FLAT_RED, g: FLAT_GREEN, b: FLAT_BLUE, a: UNIT }
    }

    /// The opaque colour that three noise samples give. With every sample
    /// between minus one and one, every channel lies between zero and one.
    pub fn from_samples(red: i32, green: i32, blue: i32) -> (c: Rgba)
        ensures
            c == noise_color(red, green, blue),
            c.r == channel(red as int),
            c.g == channel(green as int),
            c.b == channel(blue as int),
            -UNIT <= red <= UNIT ==> 0 <= c.r <= UNIT,
            -UNIT <= green <= UNIT ==> 0 <= c.g <= UNIT,
            -UNIT <= blue <= UNIT ==> 0 <= c.b <= UNIT,
    {
        Rgba { r: remap_channel(red), g: remap_channel(green), b: remap_channel(blue), a: UNIT }
    }

    /// Whether this is the value of a cell that was never set.
    pub fn is_unset(&self) -> (u: bool)
        ensures
            u == (*self == unset()),
    {
        self.r == 0 && self.g == 0 && self.b == 0 && self.a == 0
    }
}

/// Whether the cell at height `y` is solid in a column whose height sample is
/// `height`.
pub fn is_solid(height: i32, y: u32) -> (s: bool)
    ensures
        s == solid(height as int, y as int),
{
    2 * (height as i64) + BASE_HEIGHT > (y as i64) * COLOR_STEP
}

/// The colour channel that a noise sample gives. A sample between minus one
/// and one gives a channel between zero and one.
pub fn remap_channel(sample: i32) -> (c: i32)
    ensures
        c == channel(sample as int),
        -UNIT <= sample <= UNIT ==> 0 <= c <= UNIT,
{
    let shifted: i64 = sample as i64 + UNIT as i64;
    (shifted / 2) as i32
}

/// The point at which the height field is asked for the column over `(x, z)`.
#[verifier::when_used_as_spec(spec_height_point)]
pub fn height_point(x: u32, z: u32) -> (p: (i64, i64))
    ensures
        p == spec_height_point(x, z),
        p.0 == x * HEIGHT_STEP,
        p.1 == z * HEIGHT_STEP,
{
    ((x as i64) * HEIGHT_STEP, (z as i64) * HEIGHT_STEP)
}

/// The point at which the colour field is asked for the red of cell `(x, y, z)`.
#[verifier::when_used_as_spec(spec_red_point)]
pub fn red_point(x: u32, y: u32, z: u32) -> (p: (i64, i64, i64))
    ensures
        p == spec_red_point(x, y, z),
        p.0 == x * COLOR_STEP,
        p.1 == y * COLOR_STEP,
        p.2 == z * COLOR_STEP - CHANNEL_OFFSET,
{
    ((x as i64) * COLOR_STEP, (y as i64) * COLOR_STEP, (z as i64) * COLOR_STEP - CHANNEL_OFFSET)
}

/// The point at which the colour field is asked for the green of cell `(x, y, z)`.
#[verifier::when_used_as_spec(spec_green_point)]
pub fn green_point(x: u32, y: u32, z: u32) -> (p: (i64, i64, i64))
    ensures
        p == spec_green_point(x, y, z),
        p.0 == x * COLOR_STEP,
        p.1 == y * COLOR_STEP + CHANNEL_OFFSET,
        p.2 == z * COLOR_STEP,
{
    ((x as i64) * COLOR_STEP, (y as i64) * COLOR_STEP + CHANNEL_OFFSET, (z as i64) * COLOR_STEP)
}

/// The point at which the colour field is asked for the blue of cell `(x, y, z)`.
#[verifier::when_used_as_spec(spec_blue_point)]
pub fn blue_point(x: u32, y: u32, z: u32) -> (p: (i64, i64, i64))
    ensures
        p == spec_blue_point(x, y, z),
        p.0 == x * COLOR_STEP - CHANNEL_OFFSET,
        p.1 == y * COLOR_STEP,
        p.2 == z * COLOR_STEP,
{
    ((x as i64) * COLOR_STEP - CHANNEL_OFFSET, (y as i64) * COLOR_STEP, (z as i64) * COLOR_STEP)
}

/// Solidity falls with height: above an empty cell of a column every cell is
/// empty.
pub proof fn lemma_empty_above_empty(height: int, y: int, above: int)
    requires
        !solid(height, y),
        y < above,
    ensures
        !solid(height, above),
{
}

/// Solidity falls with height: below a solid cell of a column every cell is
/// solid.
pub proof fn lemma_solid_below_solid(height: int, y: int, below: int)
    requires
        solid(height, y),
        below < y,
    ensures
        solid(height, below),
{
}

/// A sample between minus one and one gives a channel between zero and one.
pub proof fn lemma_channel_in_range(sample: int)
    requires
        -UNIT <= sample <= UNIT,
    ensures
        0 <= channel(sample) <= UNIT,
{
}

} // verus!
