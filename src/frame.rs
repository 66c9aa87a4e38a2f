use vstd::prelude::*;

use crate::button::{height_of, width_of, Platform};

verus! {

/// Widens a 5-bit channel to 8 bits by replicating its top bits into the
/// low end: `(v << 3) | (v >> 2)`, computed in `u8`.
pub open spec fn expand_spec(v: u8) -> u8 {
    ((v << 3u8) | (v >> 2u8)) as u8
}

/// Expands one native colour channel to a full-range 8-bit value.
pub fn expand_channel(v: u8) -> (r: u8)
    ensures
        r == expand_spec(v),
        v < 32 ==> r as int == 8 * v + v / 4,
{
    let r = (v << 3u8) | (v >> 2u8);
    assert(v < 32 ==> ((v << 3u8) | (v >> 2u8)) as u8 as int == 8 * v + v / 4) by (bit_vector);
    r
}

/// On 5-bit input the expansion is `8v + v/4`: it maps 0 to 0, 16 to 132 and
/// 31 to 255, and larger inputs never give smaller outputs.
pub proof fn lemma_expansion(v: u8, w: u8)
    requires
        v < 32,
        w < 32,
    ensures
        expand_spec(v) as int == 8 * v + v / 4,
        expand_spec(0) == 0,
        expand_spec(16) == 132,
        expand_spec(31) == 255,
        v <= w ==> expand_spec(v) <= expand_spec(w),
{
    assert(v < 32 ==> ((v << 3u8) | (v >> 2u8)) as u8 as int == 8 * v + v / 4) by (bit_vector);
    assert(w < 32 ==> ((w << 3u8) | (w >> 2u8)) as u8 as int == 8 * w + w / 4) by (bit_vector);
    assert(((0u8 << 3u8) | (0u8 >> 2u8)) as u8 == 0) by (bit_vector);
    assert(((16u8 << 3u8) | (16u8 >> 2u8)) as u8 == 132) by (bit_vector);
    assert(((31u8 << 3u8) | (31u8 >> 2u8)) as u8 == 255) by (bit_vector);
}

/// One pixel as the cores emit it: three channels of reduced (5-bit) depth.
#[derive(Clone, Copy, Debug, PartialEq, Eq, Structural, Hash)]
pub struct PaletteColor {
    pub red: u8,
    pub green: u8,
    pub blue: u8,
}

/// The three output bytes of one pixel, in R, G, B order.
pub open spec fn pixel_bytes(c: PaletteColor) -> Seq<u8> {
    seq![expand_spec(c.red), expand_spec(c.green), expand_spec(c.blue)]
}

/// The output bytes of a row of pixels, left to right.
pub open spec fn row_bytes(row: Seq<PaletteColor>) -> Seq<u8>
    decreases row.len(),
{
    if row.len() == 0 {
        Seq::empty()
    } else {
        row_bytes(row.drop_last()) + pixel_bytes(row.last())
    }
}

/// The output bytes of a grid of pixels, rows top to bottom.
pub open spec fn frame_bytes(rows: Seq<Seq<PaletteColor>>) -> Seq<u8>
    decreases rows.len(),
{
    if rows.len() == 0 {
        Seq::empty()
    } else {
        frame_bytes(rows.drop_last()) + row_bytes(rows.last())
    }
}

/// Whether every one of the rows holds exactly `width` pixels.
pub open spec fn rows_of_width(rows: Seq<Seq<PaletteColor>>, width: nat) -> bool {
    forall|i: int| 0 <= i < rows.len() ==> (#[trigger] rows[i]).len() == width
}

/// The pixel grid behind a vector of rows.
pub open spec fn grid_view(rows: Seq<Vec<PaletteColor>>) -> Seq<Seq<PaletteColor>> {
    rows.map_values(|r: Vec<PaletteColor>| r@)
}

/// A row yields three bytes per pixel; byte `3k + c` is channel `c` of pixel `k`, expanded.
pub proof fn lemma_row_bytes(row: Seq<PaletteColor>)
    ensures
        row_bytes(row).len() == 3 * row.len(),
        forall|k: int, c: int|
            0 <= k < row.len() && 0 <= c < 3 ==> #[trigger] row_bytes(row)[3 * k + c]
                == pixel_bytes(row[k])[c],
    decreases row.len(),
{
    if row.len() > 0 {
        let init = row.drop_last();
        lemma_row_bytes(init);
        assert forall|k: int, c: int|
            0 <= k < row.len() && 0 <= c < 3 implies #[trigger] row_bytes(row)[3 * k + c]
                == pixel_bytes(row[k])[c] by {
            if k < init.len() {
                assert(row_bytes(init)[3 * k + c] == pixel_bytes(init[k])[c]);
            }
        }
    }
}

/// A grid of `rows.len()` rows of `width` pixels yields `width * height * 3` bytes.
pub proof fn lemma_frame_len(rows: Seq<Seq<PaletteColor>>, width: nat)
    requires
        rows_of_width(rows, width),
    ensures
        frame_bytes(rows).len() == width * rows.len() * 3,
    decreases rows.len(),
{
    if rows.len() > 0 {
        let init = rows.drop_last();
        assert(rows_of_width(init, width)) by {
            assert forall|i: int| 0 <= i < init.len() implies (#[trigger] init[i]).len()
                == width by {
                assert(init[i] == rows[i]);
            }
        }
        lemma_frame_len(init, width);
        lemma_row_bytes(rows.last());
        assert(width * rows.len() * 3 == width * init.len() * 3 + width * 3) by (nonlinear_arith)
            requires
                rows.len() == init.len() + 1,
        ;
    }
}

/// Converts a core's native pixel grid to flat full-depth RGB bytes: row
/// after row, pixel after pixel, each channel expanded by `expand_channel`.
pub fn convert_frame(rows: &Vec<Vec<PaletteColor>>) -> (r: Vec<u8>)
    ensures
        r@ == frame_bytes(grid_view(rows@)),
        forall|w: nat|
            rows_of_width(grid_view(rows@), w) ==> r@.len() == w * rows@.len() * 3,
{
    let ghost grid = grid_view(rows@);
    let mut out: Vec<u8> = Vec::new();
    let mut i: usize = 0;
    while i < rows.len()
        invariant
            i <= rows@.len(),
            grid == grid_view(rows@),
            out@ == frame_bytes(grid.take(i as int)),
        decreases rows@.len() - i,
    {
        let row = &rows[i];
        assert(row@ == grid[i as int]);
        let mut j: usize = 0;
        while j < row.len()
            invariant
                i < rows@.len(),
                j <= row@.len(),
                grid == grid_view(rows@),
                row@ == grid[i as int],
                out@ == frame_bytes(grid.take(i as int)) + row_bytes(row@.take(j as int)),
            decreases row@.len() - j,
        {
            let c = row[j];
            proof {
                assert(row@.take(j as int + 1).drop_last() =~= row@.take(j as int));
            }
            out.push(expand_channel(c.red));
            out.push(expand_channel(c.green));
            out.push(expand_channel(c.blue));
            j += 1;
            assert(out@ =~= frame_bytes(grid.take(i as int)) + row_bytes(row@.take(j as int)));
        }
        proof {
            assert(grid.take(i as int + 1).drop_last() =~= grid.take(i as int));
            assert(row@.take(j as int) =~= row@);
        }
        i += 1;
    }
    proof {
        assert(grid.take(i as int) =~= grid);
        assert forall|w: nat| rows_of_width(grid, w) implies out@.len() == w * rows@.len() * 3 by {
            lemma_frame_len(grid, w);
        }
    }
    out
}

/// In a grid of rows of `width` pixels, byte `(i * width + j) * 3 + c` of the
/// output is channel `c` of pixel `j` of row `i`, expanded: the conversion
/// keeps the native row-major order and touches no other pixel.
pub proof fn lemma_frame_index(rows: Seq<Seq<PaletteColor>>, width: nat)
    requires
        rows_of_width(rows, width),
    ensures
        forall|i: int, j: int, c: int|
            0 <= i < rows.len() && 0 <= j < width && 0 <= c < 3 ==> #[trigger] frame_bytes(
                rows,
            )[(i * width + j) * 3 + c] == pixel_bytes(rows[i][j])[c],
    decreases rows.len(),
{
    if rows.len() > 0 {
        let init = rows.drop_last();
        let h = init.len();
        assert(rows_of_width(init, width)) by {
            assert forall|i: int| 0 <= i < init.len() implies (#[trigger] init[i]).len()
                == width by {
                assert(init[i] == rows[i]);
            }
        }
        lemma_frame_index(init, width);
        lemma_frame_len(init, width);
        lemma_row_bytes(rows.last());
        assert forall|i: int, j: int, c: int|
            0 <= i < rows.len() && 0 <= j < width && 0 <= c < 3 implies #[trigger] frame_bytes(
                rows,
            )[(i * width + j) * 3 + c] == pixel_bytes(rows[i][j])[c] by {
            let idx = (i * width + j) * 3 + c;
            if i < h {
                assert(idx < width * h * 3) by (nonlinear_arith)
                    requires
                        0 <= i < h,
                        0 <= j < width,
                        0 <= c < 3,
                        idx == (i * width + j) * 3 + c,
                ;
                assert(init[i] == rows[i]);
            } else {
                assert(idx - width * h * 3 == 3 * j + c) by (nonlinear_arith)
                    requires
                        i == h,
                        idx == (i * width + j) * 3 + c,
                ;
            }
        }
    }
}

/// A screen of a platform, whatever a core has drawn on it, converts to
/// exactly `width * height * 3` bytes: the length never depends on the frame.
pub proof fn lemma_screen_len(p: Platform, rows: Seq<Seq<PaletteColor>>)
    requires
        rows.len() == height_of(p),
        rows_of_width(rows, width_of(p)),
    ensures
        frame_bytes(rows).len() == width_of(p) * height_of(p) * 3,
{
    lemma_frame_len(rows, width_of(p));
}

} // verus!
