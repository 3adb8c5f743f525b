//! The voxel volume: a dense grid of cell colours, generated from two noise
//! fields and read-only from then on.

use vstd::prelude::*;
use crate::column::{
    build_column, color_askable, column_follows, column_from, column_x, column_z, columns,
    each_cell_sampled, fill_column, generated, height_askable, lemma_column_in_range,
    lemma_column_kept, lemma_column_number, lemma_column_placed, place_column, stack_follows,
};
use crate::extents::Extents;
use crate::laws::lemma_each_cell_sampled;
use crate::parallel::columns_in_parallel;
use crate::terrain::{height_point, unset, ColorMode, Rgba};

verus! {

/// A dense grid of cell colours. It is made whole by [`VoxelVolume::generate`]
/// and read-only from then on; it always holds exactly one colour for each cell
/// of its extents.
pub struct VoxelVolume {
    extents: Extents,
    cells: Vec<Rgba>,
}

impl View for VoxelVolume {
    type V = Seq<Rgba>;

    /// The colours of the cells, in the order that [`Extents::index`] gives.
    closed spec fn view(&self) -> Seq<Rgba> {
        self.cells@
    }
}

impl VoxelVolume {
    #[verifier::type_invariant]
    spec fn one_color_per_cell(self) -> bool {
        self.cells@.len() == self.extents.cells()
    }

    /// The extents that the volume was generated with.
    pub closed spec fn spec_extents(&self) -> Extents {
        self.extents
    }

    /// The colour of cell `(x, y, z)`.
    pub open spec fn cell(&self, x: int, y: int, z: int) -> Rgba {
        self@[self.spec_extents().index(x, y, z)]
    }

    /// Generates the volume of the given extents from a height field and a
    /// colour field.
    ///
    /// The height field is asked once for every column, at `(x / 100, z / 100)`,
    /// and that one sample decides which cells of the column are solid. A solid
    /// cell gets the constant colour or, in the noise-derived mode, the colour
    /// of three samples of the colour field; the colour field is asked for no
    /// other cell. Every other cell is unset.
    ///
    /// The contract says it twice: column by column, with the one height
    /// sample that every cell of a column follows from, and cell by cell, with
    /// the samples that give the cell its colour.
    pub fn generate<H: Fn(i64, i64) -> i32, C: Fn(i64, i64, i64) -> i32>(
        extents: Extents,
        mode: ColorMode,
        height: H,
        color: C,
    ) -> (volume: VoxelVolume)
        requires
            extents.cells() <= usize::MAX,
            height_askable(height, extents),
            mode == ColorMode::NoiseDerived ==> color_askable(color, extents),
        ensures
            volume.spec_extents() == extents,
            generated(volume@, extents, mode, height, color),
            each_cell_sampled(volume@, extents, mode, height, color),
    {
        let count: usize = extents.cell_count().unwrap();
        let mut cells: Vec<Rgba> = vec![Rgba::unset(); count];
        assert forall|x2: u32, y2: u32, z2: u32|
            extents.holds(x2 as int, y2 as int, z2 as int) implies cells@[#[trigger] extents.index(
            x2 as int,
            y2 as int,
            z2 as int,
        )] == unset() by {
            extents.lemma_index_in_range(x2 as int, y2 as int, z2 as int);
        }
        let mut z: u32 = 0;
        while z < extents.depth
            invariant
                z <= extents.depth,
                cells.len() == extents.cells(),
                extents.cells() <= usize::MAX,
                height_askable(height, extents),
                mode == ColorMode::NoiseDerived ==> color_askable(color, extents),
                forall|x2: u32, z2: u32|
                    x2 < extents.width && z2 < z ==> #[trigger] column_follows(
                        cells@,
                        extents,
                        mode,
                        height,
                        color,
                        x2,
                        z2,
                    ),
                forall|x2: u32, y2: u32, z2: u32|
                    extents.holds(x2 as int, y2 as int, z2 as int) && z2 >= z
                        ==> cells@[#[trigger] extents.index(x2 as int, y2 as int, z2 as int)]
                        == unset(),
            decreases extents.depth - z,
        {
            let mut x: u32 = 0;
            while x < extents.width
                invariant
                    x <= extents.width,
                    z < extents.depth,
                    cells.len() == extents.cells(),
                    extents.cells() <= usize::MAX,
                    height_askable(height, extents),
                    mode == ColorMode::NoiseDerived ==> color_askable(color, extents),
                    forall|x2: u32, z2: u32|
                        x2 < extents.width && (z2 < z || (z2 == z && x2 < x))
                            ==> #[trigger] column_follows(
                            cells@,
                            extents,
                            mode,
                            height,
                            color,
                            x2,
                            z2,
                        ),
                    forall|x2: u32, y2: u32, z2: u32|
                        extents.holds(x2 as int, y2 as int, z2 as int) && (z2 > z || (z2 == z && x2
                            >= x)) ==> cells@[#[trigger] extents.index(
                            x2 as int,
                            y2 as int,
                            z2 as int,
                        )] == unset(),
                decreases extents.width - x,
            {
                let ghost before = cells@;
                let point = height_point(x, z);
                let h: i32 = height(point.0, point.1);
                fill_column(&mut cells, extents, mode, &color, h, x, z);
                proof {
                    assert(column_from(cells@, extents, mode, height, color, x, z, h));
                    assert forall|x2: u32, z2: u32|
                        x2 < extents.width && (z2 < z || (z2 == z && x2 < x))
                            implies #[trigger] column_follows(
                        cells@,
                        extents,
                        mode,
                        height,
                        color,
                        x2,
                        z2,
                    ) by {
                        lemma_column_kept(before, cells@, extents, mode, height, color, x2, z2);
                    }
                }
                x += 1;
            }
            z += 1;
        }
        proof {
            lemma_each_cell_sampled(cells@, extents, mode, height, color);
        }
        VoxelVolume { extents, cells }
    }

    /// Generates the same volume as [`VoxelVolume::generate`], the columns
    /// being built side by side on rayon's thread pool. No cell depends on
    /// another, so the order in which the columns are built does not show.
    ///
    /// Each column is built by one call that asks the height field once, and
    /// the colour field for the solid cells of that column only. Where the
    /// columns hold no cell at all, nothing is handed to the thread pool.
    pub fn generate_parallel<
        H: Fn(i64, i64) -> i32 + Sync,
        C: Fn(i64, i64, i64) -> i32 + Sync,
    >(extents: Extents, mode: ColorMode, height: H, color: C) -> (volume: VoxelVolume)
        requires
            extents.cells() <= usize::MAX,
            height_askable(height, extents),
            mode == ColorMode::NoiseDerived ==> color_askable(color, extents),
        ensures
            volume.spec_extents() == extents,
            generated(volume@, extents, mode, height, color),
            each_cell_sampled(volume@, extents, mode, height, color),
    {
        if extents.height == 0 {
            // No cell to colour: all that is left is to ask the height field.
            return VoxelVolume::generate(extents, mode, height, color);
        }
        assert(extents.width * extents.depth <= extents.width * extents.height * extents.depth)
            by (nonlinear_arith)
            requires
                extents.height >= 1,
        ;
        let count: usize = extents.cell_count().unwrap();
        let width: usize = extents.width as usize;
        let number: usize = width * extents.depth as usize;
        let height_field = &height;
        let color_field = &color;
        let build = |i: usize| -> (stack: Vec<Rgba>)
            requires
                i < number,
            ensures
                stack_follows(
                    stack@,
                    extents,
                    mode,
                    *height_field,
                    *color_field,
                    column_x(extents, i),
                    column_z(extents, i),
                ),
            {
                proof {
                    lemma_column_in_range(extents, i);
                }
                let x: u32 = (i % width) as u32;
                let z: u32 = (i / width) as u32;
                build_column(extents, mode, height_field, color_field, x, z)
            };
        let stacks: Vec<Vec<Rgba>> = columns_in_parallel(number, build);
        assert forall|i: usize| i < number implies #[trigger] stack_follows(
            stacks@[i as int]@,
            extents,
            mode,
            height,
            color,
            column_x(extents, i),
            column_z(extents, i),
        ) by {
            assert(call_ensures(build, (i,), stacks@[i as int]));
        }
        let mut cells: Vec<Rgba> = vec![Rgba::unset(); count];
        let mut z: u32 = 0;
        while z < extents.depth
            invariant
                z <= extents.depth,
                cells.len() == extents.cells(),
                extents.cells() <= usize::MAX,
                width == extents.width,
                number == columns(extents),
                stacks.len() == number,
                forall|i: usize|
                    i < number ==> #[trigger] stack_follows(
                        stacks@[i as int]@,
                        extents,
                        mode,
                        height,
                        color,
                        column_x(extents, i),
                        column_z(extents, i),
                    ),
                forall|x2: u32, z2: u32|
                    x2 < extents.width && z2 < z ==> #[trigger] column_follows(
                        cells@,
                        extents,
                        mode,
                        height,
                        color,
                        x2,
                        z2,
                    ),
            decreases extents.depth - z,
        {
            let mut x: u32 = 0;
            while x < extents.width
                invariant
                    x <= extents.width,
                    z < extents.depth,
                    cells.len() == extents.cells(),
                    extents.cells() <= usize::MAX,
                    width == extents.width,
                    number == columns(extents),
                    stacks.len() == number,
                    forall|i: usize|
                        i < number ==> #[trigger] stack_follows(
                            stacks@[i as int]@,
                            extents,
                            mode,
                            height,
                            color,
                            column_x(extents, i),
                            column_z(extents, i),
                        ),
                    forall|x2: u32, z2: u32|
                        x2 < extents.width && (z2 < z || (z2 == z && x2 < x))
                            ==> #[trigger] column_follows(
                            cells@,
                            extents,
                            mode,
                            height,
                            color,
                            x2,
                            z2,
                        ),
                decreases extents.width - x,
            {
                let ghost before = cells@;
                proof {
                    lemma_column_number(extents, x, z);
                }
                let i: usize = z as usize * width + x as usize;
                assert(stack_follows(
                    stacks@[i as int]@,
                    extents,
                    mode,
                    height,
                    color,
                    column_x(extents, i),
                    column_z(extents, i),
                ));
                place_column(&mut cells, extents, &stacks[i], x, z);
                proof {
                    lemma_column_placed(
                        cells@,
                        stacks@[i as int]@,
                        extents,
                        mode,
                        height,
                        color,
                        x,
                        z,
                    );
                    assert forall|x2: u32, z2: u32|
                        x2 < extents.width && (z2 < z || (z2 == z && x2 < x))
                            implies #[trigger] column_follows(
                        cells@,
                        extents,
                        mode,
                        height,
                        color,
                        x2,
                        z2,
                    ) by {
                        lemma_column_kept(before, cells@, extents, mode, height, color, x2, z2);
                    }
                }
                x += 1;
            }
            z += 1;
        }
        proof {
            lemma_each_cell_sampled(cells@, extents, mode, height, color);
        }
        VoxelVolume { extents, cells }
    }

    /// The extents that the volume was generated with.
    #[verifier::when_used_as_spec(spec_extents)]
    pub fn extents(&self) -> (e: Extents)
        ensures
            e == self.spec_extents(),
    {
        self.extents
    }

    /// The colour of cell `(x, y, z)`, or `None` where the extents hold no such
    /// cell.
    pub fn get(&self, x: u32, y: u32, z: u32) -> (found: Option<Rgba>)
        ensures
            found == if self.spec_extents().holds(x as int, y as int, z as int) {
                Some(self.cell(x as int, y as int, z as int))
            } else {
                None
            },
    {
        proof {
            use_type_invariant(self);
        }
        let count: usize = self.cells.len();
        if self.extents.contains(x, y, z) {
            assert(self.extents.cells() == count);
            let place: usize = self.extents.offset(x, y, z);
            Some(self.cells[place])
        } else {
            None
        }
    }

    /// All cells, in the order that [`Extents::index`] gives.
    pub fn cells(&self) -> (all: &Vec<Rgba>)
        ensures
            all@ == self@,
            all@.len() == self.spec_extents().cells(),
    {
        proof {
            use_type_invariant(self);
        }
        &self.cells
    }
}

} // verus!
