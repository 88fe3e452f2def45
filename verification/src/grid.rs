//! A surface filled with rows of glyph cells, each row drawn by one draw
//! call that finds its glyphs at an offset of its own in the payload.

use vstd::prelude::*;
use vstd::arithmetic::div_mod::{lemma_fundamental_div_mod, lemma_fundamental_div_mod_converse};
use rand::rngs::StdRng;
use crate::bytes::{append, append_zeros};
use crate::random::fill_random;

verus! {

/// The least multiple of `alignment` that is not below `value`.
pub open spec fn round_up(value: nat, alignment: nat) -> nat
    recommends
        alignment > 0,
{
    if value % alignment == 0 {
        value
    } else {
        (value + alignment - value % alignment) as nat
    }
}

/// [`round_up`] gives a multiple of the alignment that is not below the
/// value and less than one alignment above it.
pub proof fn lemma_round_up(value: nat, alignment: nat)
    requires
        alignment > 0,
    ensures
        round_up(value, alignment) % alignment == 0,
        value <= round_up(value, alignment) < value + alignment,
{
    let a = alignment as int;
    let v = value as int;
    let up = round_up(value, alignment) as int;
    lemma_fundamental_div_mod(v, a);
    if v % a != 0 {
        assert(up == (v / a + 1) * a) by (nonlinear_arith)
            requires
                up == v + a - v % a,
                v == a * (v / a) + v % a,
        ;
        lemma_fundamental_div_mod_converse(up, a, v / a + 1, 0);
    }
}

/// No multiple of the alignment lies between the value and [`round_up`] of
/// it.
pub proof fn lemma_round_up_least(value: nat, alignment: nat, multiple: nat)
    requires
        alignment > 0,
        multiple % alignment == 0,
        value <= multiple,
    ensures
        round_up(value, alignment) <= multiple,
{
    let a = alignment as int;
    let v = value as int;
    let m = multiple as int;
    lemma_fundamental_div_mod(v, a);
    lemma_fundamental_div_mod(m, a);
    if m < round_up(value, alignment) {
        assert(false) by (nonlinear_arith)
            requires
                a > 0,
                0 < v % a < a,
                v == a * (v / a) + v % a,
                m == a * (m / a),
                v <= m < v + a - v % a,
        ;
    }
}

/// Rounds `value` up to a multiple of `alignment`. There is no result for
/// an alignment of zero, nor where the multiple is more than 32 bits hold.
pub fn align_up(value: u32, alignment: u32) -> (aligned: Option<u32>)
    ensures
        match aligned {
            Some(aligned) => alignment > 0 && aligned == round_up(value as nat, alignment as nat),
            None => alignment == 0 || round_up(value as nat, alignment as nat) > u32::MAX,
        },
{
    if alignment == 0 {
        return None;
    }
    let rest: u32 = value % alignment;
    if rest == 0 {
        Some(value)
    } else {
        value.checked_add(alignment - rest)
    }
}

/// Why a surface cannot be laid out as a grid of glyphs.
#[derive(Clone, Copy, PartialEq, Eq, Debug, Structural)]
pub enum GridError {
    /// A glyph cell has no width or no height.
    EmptyCell,
    /// The alignment of the row offsets is zero.
    ZeroAlignment,
    /// A row has more glyphs than one draw call has vertices for.
    RowTooLong,
    /// The rows take more bytes than the payload buffer holds.
    CapacityExceeded,
}

/// What a grid layout holds.
pub struct GridView {
    /// Number of rows of glyphs.
    pub rows: nat,
    /// Number of glyphs in a row.
    pub cols: nat,
    /// Number of bytes from the start of one row's glyphs to the start of
    /// the next row's.
    pub row_stride: nat,
}

/// The grid that fills a surface with cells of the given size: as many
/// whole cells as fit along each side, one byte for each glyph, and each
/// row's bytes starting at a multiple of the alignment.
pub open spec fn grid_of(
    surface_width: u32,
    surface_height: u32,
    cell_width: u32,
    cell_height: u32,
    alignment: u32,
) -> GridView {
    GridView {
        rows: (surface_height / cell_height) as nat,
        cols: (surface_width / cell_width) as nat,
        row_stride: round_up((surface_width / cell_width) as nat, alignment as nat),
    }
}

/// The grid for a surface, or the reason why there is none.
pub open spec fn plan_grid(
    surface_width: u32,
    surface_height: u32,
    cell_width: u32,
    cell_height: u32,
    alignment: u32,
    capacity: u32,
) -> Result<GridView, GridError> {
    let grid = grid_of(surface_width, surface_height, cell_width, cell_height, alignment);
    if cell_width == 0 || cell_height == 0 {
        Err(GridError::EmptyCell)
    } else if alignment == 0 {
        Err(GridError::ZeroAlignment)
    } else if 6 * grid.cols > u32::MAX {
        Err(GridError::RowTooLong)
    } else if grid.rows * grid.row_stride > capacity {
        Err(GridError::CapacityExceeded)
    } else {
        Ok(grid)
    }
}

/// The payload of a frame of the grid. Row `r` takes the bytes from
/// `r * row_stride` on: first its glyphs, which are the codes from
/// `r * cols` on, then zero bytes up to the next row.
pub open spec fn grid_frame(grid: GridView, codes: Seq<u8>) -> Seq<u8> {
    Seq::new(
        grid.rows * grid.row_stride,
        |k: int|
            if k % (grid.row_stride as int) < grid.cols {
                codes[(k / (grid.row_stride as int)) * grid.cols + k % (grid.row_stride as int)]
            } else {
                0u8
            },
    )
}

/// The draw call of one row of the grid.
#[derive(Clone, Copy, PartialEq, Eq, Debug, Structural)]
pub struct RowDraw {
    /// The byte of the payload at which the row's glyphs begin: the offset
    /// at which the payload is bound for this draw.
    pub offset: u32,
    /// The number of vertices to draw, from vertex 0 on, in one instance.
    pub vertices: u32,
}

/// The draw call of row `row` of a grid.
pub open spec fn row_draw_of(grid: GridView, row: nat) -> RowDraw {
    RowDraw { offset: (row * grid.row_stride) as u32, vertices: (6 * grid.cols) as u32 }
}

/// In a row of `stride` bytes, byte `col` of row `row` is byte
/// `row * stride + col` of the frame, and of no other row.
proof fn lemma_cell_position(stride: int, row: int, col: int)
    requires
        0 <= row,
        0 <= col < stride,
    ensures
        (row * stride + col) / stride == row,
        (row * stride + col) % stride == col,
{
    lemma_fundamental_div_mod_converse(row * stride + col, stride, row, col);
}

/// Byte `col` of row `row` of a frame is the row's glyph `col`, or zero
/// behind the row's last glyph: no row's glyphs reach into the next row.
pub proof fn lemma_frame_cell(grid: GridView, codes: Seq<u8>, row: int, col: int)
    requires
        0 <= row < grid.rows,
        0 <= col < grid.row_stride,
    ensures
        0 <= row * grid.row_stride + col < grid_frame(grid, codes).len(),
        grid_frame(grid, codes)[row * grid.row_stride + col] == if col < grid.cols {
            codes[row * grid.cols + col]
        } else {
            0u8
        },
{
    let stride = grid.row_stride as int;
    lemma_cell_position(stride, row, col);
    assert(0 <= row * stride && (row + 1) * stride <= grid.rows * stride && (row + 1) * stride
        == row * stride + stride) by (nonlinear_arith)
        requires
            0 <= row < grid.rows,
            0 <= stride,
    ;
}

/// The stride of a row that one draw call can draw is not more than 32
/// bits hold.
proof fn lemma_stride_fits(cols: nat, alignment: nat)
    requires
        0 < alignment <= u32::MAX,
        6 * cols <= u32::MAX,
    ensures
        round_up(cols, alignment) <= u32::MAX,
{
    lemma_round_up(cols, alignment);
    if cols <= alignment {
        lemma_round_up_least(cols, alignment, alignment);
    }
}

/// The layout of a surface as a grid of glyphs. It is computed once and
/// does not change.
#[derive(Clone, Copy, PartialEq, Eq, Debug)]
pub struct GridLayout {
    rows: u32,
    cols: u32,
    row_stride: u32,
}

impl View for GridLayout {
    type V = GridView;

    closed spec fn view(&self) -> GridView {
        GridView {
            rows: self.rows as nat,
            cols: self.cols as nat,
            row_stride: self.row_stride as nat,
        }
    }
}

impl GridLayout {
    #[verifier::type_invariant]
    spec fn inv(&self) -> bool {
        &&& self.cols <= self.row_stride
        &&& self.rows * self.row_stride <= u32::MAX
        &&& 6 * self.cols <= u32::MAX
    }

    /// Lays a surface out as a grid of glyph cells of the given size, for a
    /// payload buffer of `capacity` bytes that is bound at offsets which
    /// are multiples of `alignment`. The stride of a row is the number of
    /// its glyphs rounded up to the alignment.
    pub fn new(
        surface_width: u32,
        surface_height: u32,
        cell_width: u32,
        cell_height: u32,
        alignment: u32,
        capacity: u32,
    ) -> (result: Result<GridLayout, GridError>)
        ensures
            match result {
                Ok(grid) => plan_grid(
                    surface_width,
                    surface_height,
                    cell_width,
                    cell_height,
                    alignment,
                    capacity,
                ) == Ok::<GridView, GridError>(grid@) && grid@.row_stride % (alignment as nat) == 0
                    && grid@.cols <= grid@.row_stride,
                Err(cause) => plan_grid(
                    surface_width,
                    surface_height,
                    cell_width,
                    cell_height,
                    alignment,
                    capacity,
                ) == Err::<GridView, GridError>(cause),
            },
    {
        if cell_width == 0 || cell_height == 0 {
            return Err(GridError::EmptyCell);
        }
        if alignment == 0 {
            return Err(GridError::ZeroAlignment);
        }
        let rows: u32 = surface_height / cell_height;
        let cols: u32 = surface_width / cell_width;
        if cols > u32::MAX / 6 {
            return Err(GridError::RowTooLong);
        }
        proof {
            lemma_stride_fits(cols as nat, alignment as nat);
            lemma_round_up(cols as nat, alignment as nat);
        }
        let row_stride: u32 = match align_up(cols, alignment) {
            Some(row_stride) => row_stride,
            None => {
                return Err(GridError::RowTooLong);
            },
        };
        assert(rows * row_stride <= 0xffff_ffff * 0xffff_ffff) by (nonlinear_arith)
            requires
                0 <= rows <= 0xffff_ffff,
                0 <= row_stride <= 0xffff_ffff,
        ;
        let total: u64 = (rows as u64) * (row_stride as u64);
        if total > capacity as u64 {
            return Err(GridError::CapacityExceeded);
        }
        Ok(GridLayout { rows, cols, row_stride })
    }

    /// Number of rows of glyphs.
    pub fn rows(&self) -> (rows: u32)
        ensures
            rows == self@.rows,
    {
        self.rows
    }

    /// Number of glyphs in a row.
    pub fn cols(&self) -> (cols: u32)
        ensures
            cols == self@.cols,
    {
        self.cols
    }

    /// Number of bytes from the start of one row's glyphs to the start of
    /// the next row's; never less than the number of glyphs in a row.
    pub fn row_stride(&self) -> (row_stride: u32)
        ensures
            row_stride == self@.row_stride,
            self@.cols <= row_stride,
    {
        proof {
            use_type_invariant(self);
        }
        self.row_stride
    }

    /// Number of bytes that a frame writes to the payload buffer.
    pub fn frame_len(&self) -> (len: u32)
        ensures
            len == self@.rows * self@.row_stride,
    {
        proof {
            use_type_invariant(self);
        }
        self.rows * self.row_stride
    }

    /// Lays the codes out row by row.
    fn lay_out(&self, codes: &[u8]) -> (frame: Vec<u8>)
        requires
            codes@.len() == self@.rows * self@.cols,
        ensures
            frame@ == grid_frame(self@, codes@),
    {
        proof {
            use_type_invariant(self);
        }
        let rows: u32 = self.rows;
        let cols: u32 = self.cols;
        let stride: u32 = self.row_stride;
        assert(rows * cols <= rows * stride) by (nonlinear_arith)
            requires
                0 <= rows,
                0 <= cols <= stride,
        ;
        let mut frame: Vec<u8> = Vec::new();
        let mut row: u32 = 0;
        assert(frame@ =~= grid_frame(
            GridView { rows: 0, cols: cols as nat, row_stride: stride as nat },
            codes@,
        ));
        while row < rows
            invariant
                row <= rows,
                cols <= stride,
                rows * stride <= u32::MAX,
                rows * cols <= u32::MAX,
                codes@.len() == rows * cols,
                frame@ == grid_frame(
                    GridView { rows: row as nat, cols: cols as nat, row_stride: stride as nat },
                    codes@,
                ),
            decreases rows - row,
        {
            assert((row + 1) * cols <= rows * cols && (row + 1) * stride <= rows * stride
                && (row + 1) * cols == row * cols + cols && (row + 1) * stride == row * stride
                + stride) by (nonlinear_arith)
                requires
                    0 <= row < rows,
                    0 <= cols,
                    0 <= stride,
            ;
            let begin: usize = (row * cols) as usize;
            let end: usize = begin + cols as usize;
            append(&mut frame, vstd::slice::slice_subrange(codes, begin, end));
            append_zeros(&mut frame, (stride - cols) as usize);
            proof {
                let next = GridView {
                    rows: (row + 1) as nat,
                    cols: cols as nat,
                    row_stride: stride as nat,
                };
                assert forall|k: int| 0 <= k < frame@.len() implies frame@[k] == grid_frame(
                    next,
                    codes@,
                )[k] by {
                    if k >= row * stride {
                        lemma_cell_position(stride as int, row as int, k - row * stride);
                    }
                }
            }
            row += 1;
        }
        frame
    }

    /// The payload of a frame whose glyphs are `codes`, row by row; `None`
    /// where the codes are not one for each glyph of the grid.
    pub fn frame(&self, codes: &[u8]) -> (frame: Option<Vec<u8>>)
        ensures
            match frame {
                Some(frame) => codes@.len() == self@.rows * self@.cols && frame@ == grid_frame(
                    self@,
                    codes@,
                ),
                None => codes@.len() != self@.rows * self@.cols,
            },
    {
        proof {
            use_type_invariant(self);
        }
        assert(self.rows * self.cols <= self.rows * self.row_stride) by (nonlinear_arith)
            requires
                0 <= self.rows,
                0 <= self.cols <= self.row_stride,
        ;
        let needed: u32 = self.rows * self.cols;
        if codes.len() as u64 != needed as u64 {
            return None;
        }
        Some(self.lay_out(codes))
    }

    /// The payload of a frame whose glyphs are drawn from `rng`, one byte
    /// for each glyph of the grid, row by row. Whatever is drawn, the frame
    /// is [`grid_frame`] of the bytes drawn: it has the length of the
    /// frame, and no row's bytes reach into the next row.
    pub fn random_frame(&self, rng: &mut StdRng) -> (frame: Vec<u8>)
        ensures
            frame@.len() == self@.rows * self@.row_stride,
            exists|codes: Seq<u8>|
                codes.len() == self@.rows * self@.cols && frame@ == #[trigger] grid_frame(
                    self@,
                    codes,
                ),
    {
        proof {
            use_type_invariant(self);
        }
        assert(self.rows * self.cols <= self.rows * self.row_stride) by (nonlinear_arith)
            requires
                0 <= self.rows,
                0 <= self.cols <= self.row_stride,
        ;
        let count: u32 = self.rows * self.cols;
        let mut codes: Vec<u8> = Vec::new();
        append_zeros(&mut codes, count as usize);
        fill_random(rng, &mut codes);
        self.lay_out(codes.as_slice())
    }

    /// The draw call of row `row`: it finds the row's glyphs at the row's
    /// offset and draws six vertices for each of them. There is none for a
    /// row that the grid does not have.
    pub fn row_draw(&self, row: u32) -> (draw: Option<RowDraw>)
        ensures
            match draw {
                Some(draw) => row < self@.rows && draw == row_draw_of(self@, row as nat),
                None => row >= self@.rows,
            },
    {
        proof {
            use_type_invariant(self);
        }
        if row >= self.rows {
            return None;
        }
        assert(row * self.row_stride <= self.rows * self.row_stride) by (nonlinear_arith)
            requires
                0 <= row < self.rows,
                0 <= self.row_stride,
        ;
        Some(RowDraw { offset: row * self.row_stride, vertices: 6 * self.cols })
    }

    /// The draw calls of a frame: one for each row, from the top.
    pub fn draws(&self) -> (draws: Vec<RowDraw>)
        ensures
            draws@.len() == self@.rows,
            forall|row: int|
                0 <= row < self@.rows ==> #[trigger] draws@[row] == row_draw_of(self@, row as nat),
    {
        let mut draws: Vec<RowDraw> = Vec::new();
        let mut row: u32 = 0;
        while row < self.rows
            invariant
                row <= self.rows,
                draws@.len() == row,
                forall|r: int| 0 <= r < row ==> #[trigger] draws@[r] == row_draw_of(self@, r as nat),
            decreases self.rows - row,
        {
            match self.row_draw(row) {
                Some(draw) => {
                    draws.push(draw);
                },
                None => {},
            }
            row += 1;
        }
        draws
    }
}

} // verus!
