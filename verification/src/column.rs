//! Columns: what it means for the cells over one `(x, z)` to follow from the
//! two fields, and the code that makes them so.
//!
//! A field is any function the caller hands in. Of its results this crate
//! knows what the function's own contract says, so the relations below speak
//! of samples that a field may yield at a point.

use vstd::prelude::*;
use crate::extents::Extents;
use crate::terrain::{
    blue_point, cell_value, flat_color, green_point, height_point, is_solid, noise_color,
    red_point, solid, unset, ColorMode, Rgba,
};

verus! {

/// Whether the colour field may yield `red`, `green` and `blue` at the three
/// sample points of cell `(x, y, z)`.
pub open spec fn sampled<C: Fn(i64, i64, i64) -> i32>(
    color: C,
    x: u32,
    y: u32,
    z: u32,
    red: i32,
    green: i32,
    blue: i32,
) -> bool {
    &&& call_ensures(color, red_point(x, y, z), red)
    &&& call_ensures(color, green_point(x, y, z), green)
    &&& call_ensures(color, blue_point(x, y, z), blue)
}

/// Whether `cell` is a colour that the rules give to cell `(x, y, z)` where it
/// is solid: the constant colour, or the colour of three samples that the
/// colour field yields at the cell's sample points.
pub open spec fn solid_follows<C: Fn(i64, i64, i64) -> i32>(
    cell: Rgba,
    mode: ColorMode,
    color: C,
    x: u32,
    y: u32,
    z: u32,
) -> bool {
    match mode {
        ColorMode::FlatConstant => cell == flat_color(),
        ColorMode::NoiseDerived => exists|red: i32, green: i32, blue: i32|
            #[trigger] sampled(color, x, y, z, red, green, blue) && cell == noise_color(
                red,
                green,
                blue,
            ),
    }
}

/// Whether `cell` is what the rules give for cell `(x, y, z)` in a column whose
/// height sample is `h`: unset where the cell is not solid, else a colour of a
/// solid cell.
pub open spec fn cell_follows<C: Fn(i64, i64, i64) -> i32>(
    cell: Rgba,
    mode: ColorMode,
    color: C,
    h: i32,
    x: u32,
    y: u32,
    z: u32,
) -> bool {
    if solid(h as int, y as int) {
        solid_follows(cell, mode, color, x, y, z)
    } else {
        cell == unset()
    }
}

/// Whether the cell of `cells` at `(x, y, z)` is what the rules give in a
/// column whose height sample is `h`.
pub open spec fn row_follows<C: Fn(i64, i64, i64) -> i32>(
    cells: Seq<Rgba>,
    extents: Extents,
    mode: ColorMode,
    color: C,
    h: i32,
    x: u32,
    y: u32,
    z: u32,
) -> bool {
    cell_follows(cells[extents.index(x as int, y as int, z as int)], mode, color, h, x, y, z)
}

/// Whether `h` is a sample that the height field yields for the column over
/// `(x, z)`, and every cell of that column in `cells` is what the rules give
/// for it.
pub open spec fn column_from<H: Fn(i64, i64) -> i32, C: Fn(i64, i64, i64) -> i32>(
    cells: Seq<Rgba>,
    extents: Extents,
    mode: ColorMode,
    height: H,
    color: C,
    x: u32,
    z: u32,
    h: i32,
) -> bool {
    &&& call_ensures(height, height_point(x, z), h)
    &&& forall|y: u32|
        y < extents.height ==> #[trigger] row_follows(cells, extents, mode, color, h, x, y, z)
}

/// Whether the column over `(x, z)` in `cells` follows from one height sample:
/// a single sample of the height field decides every cell of the column.
pub open spec fn column_follows<H: Fn(i64, i64) -> i32, C: Fn(i64, i64, i64) -> i32>(
    cells: Seq<Rgba>,
    extents: Extents,
    mode: ColorMode,
    height: H,
    color: C,
    x: u32,
    z: u32,
) -> bool {
    exists|h: i32| #[trigger] column_from(cells, extents, mode, height, color, x, z, h)
}

/// Whether `cells` is a volume of the given extents that the rules give for
/// the two fields: one cell per place, and every column following from one
/// height sample.
pub open spec fn generated<H: Fn(i64, i64) -> i32, C: Fn(i64, i64, i64) -> i32>(
    cells: Seq<Rgba>,
    extents: Extents,
    mode: ColorMode,
    height: H,
    color: C,
) -> bool {
    &&& cells.len() == extents.cells()
    &&& forall|x: u32, z: u32|
        x < extents.width && z < extents.depth ==> #[trigger] column_follows(
            cells,
            extents,
            mode,
            height,
            color,
            x,
            z,
        )
}

/// Whether the two fields may yield these samples for cell `(x, y, z)`: `h` at
/// the sample point of its column and, where that makes the cell solid and the
/// mode is the noise-derived one, `red`, `green` and `blue` at its own three
/// sample points.
pub open spec fn yields<H: Fn(i64, i64) -> i32, C: Fn(i64, i64, i64) -> i32>(
    mode: ColorMode,
    height: H,
    color: C,
    x: u32,
    y: u32,
    z: u32,
    h: i32,
    red: i32,
    green: i32,
    blue: i32,
) -> bool {
    &&& call_ensures(height, height_point(x, z), h)
    &&& solid(h as int, y as int) && mode == ColorMode::NoiseDerived ==> sampled(
        color,
        x,
        y,
        z,
        red,
        green,
        blue,
    )
}

/// Whether the cell of `cells` at `(x, y, z)` is the colour that the rules give
/// for samples that the two fields yield for it.
pub open spec fn cell_sampled<H: Fn(i64, i64) -> i32, C: Fn(i64, i64, i64) -> i32>(
    cells: Seq<Rgba>,
    extents: Extents,
    mode: ColorMode,
    height: H,
    color: C,
    x: u32,
    y: u32,
    z: u32,
) -> bool {
    exists|h: i32, red: i32, green: i32, blue: i32|
        {
            &&& #[trigger] yields(mode, height, color, x, y, z, h, red, green, blue)
            &&& cells[extents.index(x as int, y as int, z as int)] == cell_value(
                mode,
                h,
                y,
                red,
                green,
                blue,
            )
        }
}

/// Whether every cell of `cells` is the colour that the rules give for samples
/// that the two fields yield for it.
pub open spec fn each_cell_sampled<H: Fn(i64, i64) -> i32, C: Fn(i64, i64, i64) -> i32>(
    cells: Seq<Rgba>,
    extents: Extents,
    mode: ColorMode,
    height: H,
    color: C,
) -> bool {
    forall|x: u32, y: u32, z: u32|
        #![trigger cells[extents.index(x as int, y as int, z as int)]]
        extents.holds(x as int, y as int, z as int) ==> cell_sampled(
            cells,
            extents,
            mode,
            height,
            color,
            x,
            y,
            z,
        )
}

/// Whether the colour field accepts the three sample points of every cell.
pub open spec fn color_askable<C: Fn(i64, i64, i64) -> i32>(color: C, extents: Extents) -> bool {
    forall|x: u32, y: u32, z: u32|
        #![trigger red_point(x, y, z)]
        #![trigger green_point(x, y, z)]
        #![trigger blue_point(x, y, z)]
        extents.holds(x as int, y as int, z as int) ==> call_requires(color, red_point(x, y, z))
            && call_requires(color, green_point(x, y, z)) && call_requires(
            color,
            blue_point(x, y, z),
        )
}

/// Whether the height field accepts the sample point of every column.
pub open spec fn height_askable<H: Fn(i64, i64) -> i32>(height: H, extents: Extents) -> bool {
    forall|x: u32, z: u32|
        x < extents.width && z < extents.depth ==> call_requires(
            height,
            #[trigger] height_point(x, z),
        )
}

/// The colour of cell `(x, y, z)` where it is solid. In the noise-derived mode
/// the colour field is asked three times, once at each of the cell's sample
/// points.
pub(crate) fn solid_color<C: Fn(i64, i64, i64) -> i32>(
    extents: Extents,
    mode: ColorMode,
    color: &C,
    x: u32,
    y: u32,
    z: u32,
) -> (cell: Rgba)
    requires
        extents.holds(x as int, y as int, z as int),
        mode == ColorMode::NoiseDerived ==> color_askable(*color, extents),
    ensures
        solid_follows(cell, mode, *color, x, y, z),
{
    match mode {
        ColorMode::FlatConstant => Rgba::flat(),
        ColorMode::NoiseDerived => {
            let rp = red_point(x, y, z);
            let gp = green_point(x, y, z);
            let bp = blue_point(x, y, z);
            let red: i32 = color(rp.0, rp.1, rp.2);
            let green: i32 = color(gp.0, gp.1, gp.2);
            let blue: i32 = color(bp.0, bp.1, bp.2);
            assert(sampled(*color, x, y, z, red, green, blue));
            Rgba::from_samples(red, green, blue)
        },
    }
}

/// Writes the solid cells of the column over `(x, z)`, whose height sample is
/// `h`. The cells that are not solid stay as they were: unset.
pub(crate) fn fill_column<C: Fn(i64, i64, i64) -> i32>(
    cells: &mut Vec<Rgba>,
    extents: Extents,
    mode: ColorMode,
    color: &C,
    h: i32,
    x: u32,
    z: u32,
)
    requires
        old(cells).len() == extents.cells(),
        extents.cells() <= usize::MAX,
        x < extents.width,
        z < extents.depth,
        forall|y: u32|
            y < extents.height ==> old(cells)@[#[trigger] extents.index(
                x as int,
                y as int,
                z as int,
            )] == unset(),
        mode == ColorMode::NoiseDerived ==> color_askable(*color, extents),
    ensures
        final(cells).len() == old(cells).len(),
        forall|y: u32|
            y < extents.height ==> #[trigger] row_follows(
                final(cells)@,
                extents,
                mode,
                *color,
                h,
                x,
                y,
                z,
            ),
        forall|x2: u32, y2: u32, z2: u32|
            extents.holds(x2 as int, y2 as int, z2 as int) && (x2 != x || z2 != z)
                ==> final(cells)@[#[trigger] extents.index(x2 as int, y2 as int, z2 as int)]
                == old(cells)@[extents.index(x2 as int, y2 as int, z2 as int)],
{
    let ghost before = cells@;
    let mut y: u32 = 0;
    while y < extents.height
        invariant
            y <= extents.height,
            cells.len() == extents.cells(),
            extents.cells() <= usize::MAX,
            x < extents.width,
            z < extents.depth,
            mode == ColorMode::NoiseDerived ==> color_askable(*color, extents),
            forall|y2: u32|
                y2 < y ==> #[trigger] row_follows(cells@, extents, mode, *color, h, x, y2, z),
            forall|y2: u32|
                y <= y2 < extents.height ==> cells@[#[trigger] extents.index(
                    x as int,
                    y2 as int,
                    z as int,
                )] == unset(),
            forall|x2: u32, y2: u32, z2: u32|
                extents.holds(x2 as int, y2 as int, z2 as int) && (x2 != x || z2 != z)
                    ==> cells@[#[trigger] extents.index(x2 as int, y2 as int, z2 as int)]
                    == before[extents.index(x2 as int, y2 as int, z2 as int)],
        decreases extents.height - y,
    {
        let ghost earlier = cells@;
        let place: usize = extents.offset(x, y, z);
        if is_solid(h, y) {
            cells.set(place, solid_color(extents, mode, color, x, y, z));
        }
        assert(row_follows(cells@, extents, mode, *color, h, x, y, z));
        assert forall|y2: u32| y2 < y implies #[trigger] row_follows(
            cells@,
            extents,
            mode,
            *color,
            h,
            x,
            y2,
            z,
        ) by {
            extents.lemma_index_in_range(x as int, y2 as int, z as int);
            extents.lemma_index_distinct(
                x as int,
                y as int,
                z as int,
                x as int,
                y2 as int,
                z as int,
            );
            assert(row_follows(earlier, extents, mode, *color, h, x, y2, z));
        }
        assert forall|y2: u32| y < y2 < extents.height implies cells@[#[trigger] extents.index(
            x as int,
            y2 as int,
            z as int,
        )] == unset() by {
            extents.lemma_index_in_range(x as int, y2 as int, z as int);
            extents.lemma_index_distinct(
                x as int,
                y as int,
                z as int,
                x as int,
                y2 as int,
                z as int,
            );
        }
        assert forall|x2: u32, y2: u32, z2: u32|
            extents.holds(x2 as int, y2 as int, z2 as int) && (x2 != x || z2 != z)
                implies cells@[#[trigger] extents.index(x2 as int, y2 as int, z2 as int)]
            == before[extents.index(x2 as int, y2 as int, z2 as int)] by {
            extents.lemma_index_in_range(x2 as int, y2 as int, z2 as int);
            extents.lemma_index_distinct(
                x as int,
                y as int,
                z as int,
                x2 as int,
                y2 as int,
                z2 as int,
            );
        }
        y += 1;
    }
}

/// Whether `h` is a sample that the height field yields for the column over
/// `(x, z)`, and `stack` holds what the rules give for the cells of that
/// column, bottom to top.
pub(crate) open spec fn stack_from<H: Fn(i64, i64) -> i32, C: Fn(i64, i64, i64) -> i32>(
    stack: Seq<Rgba>,
    extents: Extents,
    mode: ColorMode,
    height: H,
    color: C,
    x: u32,
    z: u32,
    h: i32,
) -> bool {
    &&& call_ensures(height, height_point(x, z), h)
    &&& forall|y: u32|
        y < extents.height ==> #[trigger] cell_follows(stack[y as int], mode, color, h, x, y, z)
}

/// Whether `stack` holds the cells of the column over `(x, z)`, bottom to top,
/// as they follow from one height sample.
pub(crate) open spec fn stack_follows<H: Fn(i64, i64) -> i32, C: Fn(i64, i64, i64) -> i32>(
    stack: Seq<Rgba>,
    extents: Extents,
    mode: ColorMode,
    height: H,
    color: C,
    x: u32,
    z: u32,
) -> bool {
    &&& stack.len() == extents.height
    &&& exists|h: i32| #[trigger] stack_from(stack, extents, mode, height, color, x, z, h)
}

/// The `x` of the column with number `i`, columns being counted along `x`
/// first.
pub(crate) open spec fn column_x(extents: Extents, i: usize) -> u32 {
    (i % (extents.width as usize)) as u32
}

/// The `z` of the column with number `i`.
pub(crate) open spec fn column_z(extents: Extents, i: usize) -> u32 {
    (i / (extents.width as usize)) as u32
}

/// The number of columns.
pub(crate) open spec fn columns(extents: Extents) -> int {
    extents.width * extents.depth
}

/// Every column number stands for a column.
pub(crate) proof fn lemma_column_in_range(extents: Extents, i: usize)
    requires
        i < columns(extents),
    ensures
        extents.width > 0,
        (i % (extents.width as usize)) < extents.width,
        (i / (extents.width as usize)) < extents.depth,
        column_x(extents, i) < extents.width,
        column_z(extents, i) < extents.depth,
        column_x(extents, i) == i % (extents.width as usize),
        column_z(extents, i) == i / (extents.width as usize),
{
    let w = extents.width as int;
    let d = extents.depth as int;
    assert(w > 0) by (nonlinear_arith)
        requires
            0 < w * d,
            0 <= w,
            0 <= d,
    ;
    vstd::arithmetic::div_mod::lemma_mod_bound(i as int, w);
    vstd::arithmetic::div_mod::lemma_div_pos_is_pos(i as int, w);
    vstd::arithmetic::div_mod::lemma_multiply_divide_lt(i as int, w, d);
}

/// The column over `(x, z)` has the number `z * width + x`.
pub(crate) proof fn lemma_column_number(extents: Extents, x: u32, z: u32)
    requires
        x < extents.width,
        z < extents.depth,
        columns(extents) <= usize::MAX,
    ensures
        0 <= z * extents.width + x < columns(extents),
        column_x(extents, (z * extents.width + x) as usize) == x,
        column_z(extents, (z * extents.width + x) as usize) == z,
{
    let w = extents.width as int;
    let d = extents.depth as int;
    let i = z * w + x;
    assert(0 <= z * w && z * w + w <= d * w && d * w == w * d) by (nonlinear_arith)
        requires
            0 <= z < d,
            0 < w,
    ;
    vstd::arithmetic::div_mod::lemma_fundamental_div_mod_converse(i, w, z as int, x as int);
}

/// The cells of the column over `(x, z)`, bottom to top. The height field is
/// asked once; the colour field three times for each solid cell of the
/// noise-derived mode.
pub(crate) fn build_column<H: Fn(i64, i64) -> i32, C: Fn(i64, i64, i64) -> i32>(
    extents: Extents,
    mode: ColorMode,
    height: &H,
    color: &C,
    x: u32,
    z: u32,
) -> (stack: Vec<Rgba>)
    requires
        x < extents.width,
        z < extents.depth,
        height_askable(*height, extents),
        mode == ColorMode::NoiseDerived ==> color_askable(*color, extents),
    ensures
        stack_follows(stack@, extents, mode, *height, *color, x, z),
{
    let point = height_point(x, z);
    let h: i32 = height(point.0, point.1);
    let mut stack: Vec<Rgba> = Vec::new();
    let mut y: u32 = 0;
    while y < extents.height
        invariant
            y <= extents.height,
            x < extents.width,
            z < extents.depth,
            stack.len() == y,
            mode == ColorMode::NoiseDerived ==> color_askable(*color, extents),
            forall|y2: u32|
                y2 < y ==> #[trigger] cell_follows(stack@[y2 as int], mode, *color, h, x, y2, z),
        decreases extents.height - y,
    {
        let cell: Rgba = if is_solid(h, y) {
            solid_color(extents, mode, color, x, y, z)
        } else {
            Rgba::unset()
        };
        stack.push(cell);
        y += 1;
    }
    assert(stack_from(stack@, extents, mode, *height, *color, x, z, h));
    stack
}

/// Writes the cells of `stack` to the column over `(x, z)`.
pub(crate) fn place_column(cells: &mut Vec<Rgba>, extents: Extents, stack: &Vec<Rgba>, x: u32, z: u32)
    requires
        old(cells).len() == extents.cells(),
        extents.cells() <= usize::MAX,
        x < extents.width,
        z < extents.depth,
        stack.len() == extents.height,
    ensures
        final(cells).len() == old(cells).len(),
        forall|y: u32|
            y < extents.height ==> final(cells)@[#[trigger] extents.index(
                x as int,
                y as int,
                z as int,
            )] == stack@[y as int],
        forall|x2: u32, y2: u32, z2: u32|
            extents.holds(x2 as int, y2 as int, z2 as int) && (x2 != x || z2 != z)
                ==> final(cells)@[#[trigger] extents.index(x2 as int, y2 as int, z2 as int)]
                == old(cells)@[extents.index(x2 as int, y2 as int, z2 as int)],
{
    let ghost before = cells@;
    let mut y: u32 = 0;
    while y < extents.height
        invariant
            y <= extents.height,
            cells.len() == extents.cells(),
            extents.cells() <= usize::MAX,
            x < extents.width,
            z < extents.depth,
            stack.len() == extents.height,
            forall|y2: u32|
                y2 < y ==> cells@[#[trigger] extents.index(x as int, y2 as int, z as int)]
                    == stack@[y2 as int],
            forall|x2: u32, y2: u32, z2: u32|
                extents.holds(x2 as int, y2 as int, z2 as int) && (x2 != x || z2 != z)
                    ==> cells@[#[trigger] extents.index(x2 as int, y2 as int, z2 as int)]
                    == before[extents.index(x2 as int, y2 as int, z2 as int)],
        decreases extents.height - y,
    {
        let place: usize = extents.offset(x, y, z);
        cells.set(place, stack[y as usize]);
        assert forall|y2: u32| y2 < y implies cells@[#[trigger] extents.index(
            x as int,
            y2 as int,
            z as int,
        )] == stack@[y2 as int] by {
            extents.lemma_index_in_range(x as int, y2 as int, z as int);
            extents.lemma_index_distinct(
                x as int,
                y as int,
                z as int,
                x as int,
                y2 as int,
                z as int,
            );
        }
        assert forall|x2: u32, y2: u32, z2: u32|
            extents.holds(x2 as int, y2 as int, z2 as int) && (x2 != x || z2 != z)
                implies cells@[#[trigger] extents.index(x2 as int, y2 as int, z2 as int)]
            == before[extents.index(x2 as int, y2 as int, z2 as int)] by {
            extents.lemma_index_in_range(x2 as int, y2 as int, z2 as int);
            extents.lemma_index_distinct(
                x as int,
                y as int,
                z as int,
                x2 as int,
                y2 as int,
                z2 as int,
            );
        }
        y += 1;
    }
}

/// A column that followed from one height sample still does after cells of
/// other columns changed.
pub(crate) proof fn lemma_column_kept<H: Fn(i64, i64) -> i32, C: Fn(i64, i64, i64) -> i32>(
    before: Seq<Rgba>,
    after: Seq<Rgba>,
    extents: Extents,
    mode: ColorMode,
    height: H,
    color: C,
    x: u32,
    z: u32,
)
    requires
        column_follows(before, extents, mode, height, color, x, z),
        forall|y: u32|
            y < extents.height ==> after[#[trigger] extents.index(x as int, y as int, z as int)]
                == before[extents.index(x as int, y as int, z as int)],
    ensures
        column_follows(after, extents, mode, height, color, x, z),
{
    let h = choose|h: i32| #[trigger] column_from(before, extents, mode, height, color, x, z, h);
    assert forall|y: u32| y < extents.height implies #[trigger] row_follows(
        after,
        extents,
        mode,
        color,
        h,
        x,
        y,
        z,
    ) by {
        assert(row_follows(before, extents, mode, color, h, x, y, z));
    }
    assert(column_from(after, extents, mode, height, color, x, z, h));
}

/// A column whose cells are those of a stack that follows from one height
/// sample follows from that sample.
pub(crate) proof fn lemma_column_placed<H: Fn(i64, i64) -> i32, C: Fn(i64, i64, i64) -> i32>(
    cells: Seq<Rgba>,
    stack: Seq<Rgba>,
    extents: Extents,
    mode: ColorMode,
    height: H,
    color: C,
    x: u32,
    z: u32,
)
    requires
        stack_follows(stack, extents, mode, height, color, x, z),
        forall|y: u32|
            y < extents.height ==> cells[#[trigger] extents.index(x as int, y as int, z as int)]
                == stack[y as int],
    ensures
        column_follows(cells, extents, mode, height, color, x, z),
{
    let h = choose|h: i32| #[trigger] stack_from(stack, extents, mode, height, color, x, z, h);
    assert forall|y: u32| y < extents.height implies #[trigger] row_follows(
        cells,
        extents,
        mode,
        color,
        h,
        x,
        y,
        z,
    ) by {
        assert(cell_follows(stack[y as int], mode, color, h, x, y, z));
    }
    assert(column_from(cells, extents, mode, height, color, x, z, h));
}

} // verus!
