//! What holds of every generated volume.

use vstd::prelude::*;
use crate::column::{
    cell_sampled, column_follows, column_from, each_cell_sampled, generated, row_follows,
    sampled, yields,
};
use crate::extents::Extents;
use crate::terrain::{
    cell_value, height_point, lemma_channel_in_range, lemma_empty_above_empty, noise_color, solid,
    unset, ColorMode, Rgba,
};
use crate::units::UNIT;

verus! {

/// Whether a field of two coordinates yields one sample only at each point.
pub open spec fn single_valued2<H: Fn(i64, i64) -> i32>(field: H) -> bool {
    forall|point: (i64, i64), a: i32, b: i32|
        #![trigger call_ensures(field, point, a), call_ensures(field, point, b)]
        call_ensures(field, point, a) && call_ensures(field, point, b) ==> a == b
}

/// Whether a field of three coordinates yields one sample only at each point.
pub open spec fn single_valued3<C: Fn(i64, i64, i64) -> i32>(field: C) -> bool {
    forall|point: (i64, i64, i64), a: i32, b: i32|
        #![trigger call_ensures(field, point, a), call_ensures(field, point, b)]
        call_ensures(field, point, a) && call_ensures(field, point, b) ==> a == b
}

/// Whether every sample that a field of three coordinates yields lies between
/// minus one and one.
pub open spec fn within_unit3<C: Fn(i64, i64, i64) -> i32>(field: C) -> bool {
    forall|point: (i64, i64, i64), sample: i32| #[trigger]
        call_ensures(field, point, sample) ==> -UNIT <= sample <= UNIT
}

/// In a generated volume a cell is unset exactly where the height sample of
/// its column leaves it empty: the same sample for every cell of the column.
pub proof fn lemma_one_sample_per_column<H: Fn(i64, i64) -> i32, C: Fn(i64, i64, i64) -> i32>(
    cells: Seq<Rgba>,
    extents: Extents,
    mode: ColorMode,
    height: H,
    color: C,
    x: u32,
    z: u32,
) -> (h: i32)
    requires
        generated(cells, extents, mode, height, color),
        x < extents.width,
        z < extents.depth,
    ensures
        call_ensures(height, height_point(x, z), h),
        forall|y: u32|
            y < extents.height ==> (cells[#[trigger] extents.index(x as int, y as int, z as int)]
                == unset() <==> !solid(h as int, y as int)),
{
    assert(column_follows(cells, extents, mode, height, color, x, z));
    let h = choose|h: i32| #[trigger] column_from(cells, extents, mode, height, color, x, z, h);
    assert forall|y: u32| y < extents.height implies (cells[#[trigger] extents.index(
        x as int,
        y as int,
        z as int,
    )] == unset() <==> !solid(h as int, y as int)) by {
        assert(row_follows(cells, extents, mode, color, h, x, y, z));
    }
    h
}

/// Every cell of a generated volume is the colour that the rules give for
/// samples that the two fields yield: for one at the sample point of the
/// cell's column and, where the cell is solid and the mode is the
/// noise-derived one, for three at the cell's own sample points. The result
/// names them: the height sample, then red, green and blue.
pub proof fn lemma_cell_samples<H: Fn(i64, i64) -> i32, C: Fn(i64, i64, i64) -> i32>(
    cells: Seq<Rgba>,
    extents: Extents,
    mode: ColorMode,
    height: H,
    color: C,
    x: u32,
    y: u32,
    z: u32,
) -> (samples: (i32, i32, i32, i32))
    requires
        generated(cells, extents, mode, height, color),
        extents.holds(x as int, y as int, z as int),
    ensures
        call_ensures(height, height_point(x, z), samples.0),
        solid(samples.0 as int, y as int) && mode == ColorMode::NoiseDerived ==> sampled(
            color,
            x,
            y,
            z,
            samples.1,
            samples.2,
            samples.3,
        ),
        cells[extents.index(x as int, y as int, z as int)] == cell_value(
            mode,
            samples.0,
            y,
            samples.1,
            samples.2,
            samples.3,
        ),
{
    assert(column_follows(cells, extents, mode, height, color, x, z));
    let h = choose|h: i32| #[trigger] column_from(cells, extents, mode, height, color, x, z, h);
    assert(row_follows(cells, extents, mode, color, h, x, y, z));
    if solid(h as int, y as int) && mode == ColorMode::NoiseDerived {
        let cell = cells[extents.index(x as int, y as int, z as int)];
        let (red, green, blue) = choose|r: i32, g: i32, b: i32| #[trigger]
            sampled(color, x, y, z, r, g, b) && cell == noise_color(r, g, b);
        (h, red, green, blue)
    } else {
        (h, 0, 0, 0)
    }
}

/// Every cell of a generated volume is the colour that the rules give for
/// samples that the two fields yield for it.
pub proof fn lemma_each_cell_sampled<H: Fn(i64, i64) -> i32, C: Fn(i64, i64, i64) -> i32>(
    cells: Seq<Rgba>,
    extents: Extents,
    mode: ColorMode,
    height: H,
    color: C,
)
    requires
        generated(cells, extents, mode, height, color),
    ensures
        each_cell_sampled(cells, extents, mode, height, color),
{
    assert forall|x: u32, y: u32, z: u32|
        extents.holds(x as int, y as int, z as int) implies #[trigger] cell_sampled(
        cells,
        extents,
        mode,
        height,
        color,
        x,
        y,
        z,
    ) by {
        let s = lemma_cell_samples(cells, extents, mode, height, color, x, y, z);
        assert(yields(mode, height, color, x, y, z, s.0, s.1, s.2, s.3));
    }
}

/// Where each field yields one sample only at each point, a cell of a
/// generated volume is the colour that the rules give for those samples: `h`
/// at the sample point of its column and, where the cell is solid and the mode
/// is the noise-derived one, `red`, `green` and `blue` at its own three sample
/// points.
pub proof fn lemma_cell_value<H: Fn(i64, i64) -> i32, C: Fn(i64, i64, i64) -> i32>(
    cells: Seq<Rgba>,
    extents: Extents,
    mode: ColorMode,
    height: H,
    color: C,
    x: u32,
    y: u32,
    z: u32,
    h: i32,
    red: i32,
    green: i32,
    blue: i32,
)
    requires
        generated(cells, extents, mode, height, color),
        extents.holds(x as int, y as int, z as int),
        single_valued2(height),
        single_valued3(color),
        call_ensures(height, height_point(x, z), h),
        solid(h as int, y as int) && mode == ColorMode::NoiseDerived ==> sampled(
            color,
            x,
            y,
            z,
            red,
            green,
            blue,
        ),
    ensures
        cells[extents.index(x as int, y as int, z as int)] == cell_value(
            mode,
            h,
            y,
            red,
            green,
            blue,
        ),
{
    assert(column_follows(cells, extents, mode, height, color, x, z));
    let h2 = choose|h2: i32| #[trigger]
        column_from(cells, extents, mode, height, color, x, z, h2);
    assert(h2 == h);
    assert(row_follows(cells, extents, mode, color, h, x, y, z));
    if solid(h as int, y as int) && mode == ColorMode::NoiseDerived {
        let cell = cells[extents.index(x as int, y as int, z as int)];
        let (r2, g2, b2) = choose|r: i32, g: i32, b: i32| #[trigger]
            sampled(color, x, y, z, r, g, b) && cell == noise_color(r, g, b);
        assert(r2 == red && g2 == green && b2 == blue);
    }
}

/// In a generated volume every cell above an unset cell of the same column is
/// unset.
pub proof fn lemma_unset_above_unset<H: Fn(i64, i64) -> i32, C: Fn(i64, i64, i64) -> i32>(
    cells: Seq<Rgba>,
    extents: Extents,
    mode: ColorMode,
    height: H,
    color: C,
    x: u32,
    y: u32,
    above: u32,
    z: u32,
)
    requires
        generated(cells, extents, mode, height, color),
        x < extents.width,
        z < extents.depth,
        y < above < extents.height,
        cells[extents.index(x as int, y as int, z as int)] == unset(),
    ensures
        cells[extents.index(x as int, above as int, z as int)] == unset(),
{
    let h = lemma_one_sample_per_column(cells, extents, mode, height, color, x, z);
    lemma_empty_above_empty(h as int, y as int, above as int);
}

/// Generation is a function of its inputs: two volumes generated with the same
/// extents and mode from the same fields, each of which yields one sample only
/// at each point, are equal cell for cell.
pub proof fn lemma_generation_repeats<H: Fn(i64, i64) -> i32, C: Fn(i64, i64, i64) -> i32>(
    first: Seq<Rgba>,
    second: Seq<Rgba>,
    extents: Extents,
    mode: ColorMode,
    height: H,
    color: C,
)
    requires
        generated(first, extents, mode, height, color),
        generated(second, extents, mode, height, color),
        single_valued2(height),
        single_valued3(color),
    ensures
        first == second,
{
    assert forall|i: int| 0 <= i < first.len() implies first[i] == second[i] by {
        let at = extents.lemma_index_reaches(i);
        let (x, y, z) = at;
        assert(column_follows(first, extents, mode, height, color, x, z));
        assert(column_follows(second, extents, mode, height, color, x, z));
        let h1 = choose|h: i32| #[trigger]
            column_from(first, extents, mode, height, color, x, z, h);
        let h2 = choose|h: i32| #[trigger]
            column_from(second, extents, mode, height, color, x, z, h);
        assert(h1 == h2);
        assert(row_follows(first, extents, mode, color, h1, x, y, z));
        assert(row_follows(second, extents, mode, color, h2, x, y, z));
        if solid(h1 as int, y as int) && mode == ColorMode::NoiseDerived {
            let (r1, g1, b1) = choose|r: i32, g: i32, b: i32| #[trigger]
                sampled(color, x, y, z, r, g, b) && first[i] == noise_color(r, g, b);
            let (r2, g2, b2) = choose|r: i32, g: i32, b: i32| #[trigger]
                sampled(color, x, y, z, r, g, b) && second[i] == noise_color(r, g, b);
            assert(r1 == r2 && g1 == g2 && b1 == b2);
        }
    }
    assert(first =~= second);
}

/// Where every sample of the colour field lies between minus one and one,
/// every channel of every cell of a generated volume lies between zero and
/// one.
pub proof fn lemma_channels_within_unit<H: Fn(i64, i64) -> i32, C: Fn(i64, i64, i64) -> i32>(
    cells: Seq<Rgba>,
    extents: Extents,
    mode: ColorMode,
    height: H,
    color: C,
    x: u32,
    y: u32,
    z: u32,
)
    requires
        generated(cells, extents, mode, height, color),
        extents.holds(x as int, y as int, z as int),
        within_unit3(color),
    ensures
        ({
            let cell = cells[extents.index(x as int, y as int, z as int)];
            &&& 0 <= cell.r <= UNIT
            &&& 0 <= cell.g <= UNIT
            &&& 0 <= cell.b <= UNIT
            &&& cell.a == 0 || cell.a == UNIT
        }),
{
    assert(column_follows(cells, extents, mode, height, color, x, z));
    let h = choose|h: i32| #[trigger] column_from(cells, extents, mode, height, color, x, z, h);
    assert(row_follows(cells, extents, mode, color, h, x, y, z));
    let cell = cells[extents.index(x as int, y as int, z as int)];
    if solid(h as int, y as int) && mode == ColorMode::NoiseDerived {
        let (r, g, b) = choose|r: i32, g: i32, b: i32| #[trigger]
            sampled(color, x, y, z, r, g, b) && cell == noise_color(r, g, b);
        lemma_channel_in_range(r as int);
        lemma_channel_in_range(g as int);
        lemma_channel_in_range(b as int);
    }
}

} // verus!
