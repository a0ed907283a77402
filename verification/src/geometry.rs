//! The grid layout engine.
//!
//! Given a grid of keys it computes, for every row, how wide each button,
//! inter-key gap and edge padding must be so that the row exactly fills
//! the available width, and how tall rows and the gaps around them must
//! be so that the whole grid fills exactly one third of the available
//! height.
//!
//! All lengths are *exact fractions of the available rectangle*: a
//! horizontal length is `available_width * num / den` with `num` a
//! numerator from [`RowGeometry`] and `den` that row's common
//! denominator, and a vertical length is `available_height * num /
//! v_den` with the numerators and denominator from [`GridGeometry`].
//! Keeping numerators and denominators as integers makes the
//! conservation laws below exact theorems instead of floating point
//! approximations; a renderer performs the single division at the end.
//!
//! Relative widths are measured in sixths of a standard key width (see
//! [`crate::keys::Key`]); every inter-key gap and the basic edge padding
//! is one sixth, so a row with `L` keys of total relative width `k`
//! sixths spans `k + L + 1` sixths.  The widest row determines the scale:
//! it spans the available width exactly.  A row containing space keys
//! stretches, the deficit to the widest row being split equally among its
//! space keys; a row without one is centered by equal padding on both
//! sides.

use vstd::prelude::*;
use crate::keys::Key;

verus! {

/// Largest accepted number of rows in a grid; keeps all numerators
/// comfortably inside `u64`.
pub const MAX_GRID_ROWS: usize = 100000;

/// Largest accepted number of keys in one row; keeps all numerators
/// comfortably inside `u64`.
pub const MAX_ROW_KEYS: usize = 100000;

/// Total relative width of the keys of a row, in sixths of a key width.
pub open spec fn keys_width_sixths(row: Seq<Key>) -> int
    decreases row.len(),
{
    if row.len() == 0 {
        0
    } else {
        keys_width_sixths(row.drop_last()) + row.last().rel_width_sixths()
    }
}

/// Full relative span of a row in sixths: its keys plus one gap between
/// neighbours and one basic padding unit at either edge, `L + 1` gaps in
/// all for `L` keys.
pub open spec fn row_units_sixths(row: Seq<Key>) -> int {
    keys_width_sixths(row) + row.len() + 1
}

/// How many space keys a row holds.
pub open spec fn space_count(row: Seq<Key>) -> int
    decreases row.len(),
{
    if row.len() == 0 {
        0
    } else {
        space_count(row.drop_last()) + if row.last().is_space() {
            1int
        } else {
            0int
        }
    }
}

/// Relative span of the widest non-empty row of the grid, in sixths;
/// zero when every row is empty.  Empty rows are skipped entirely.
pub open spec fn widest_row_sixths(grid: Seq<Vec<Key>>) -> int
    decreases grid.len(),
{
    if grid.len() == 0 {
        0
    } else {
        let rest = widest_row_sixths(grid.drop_last());
        let last = if grid.last()@.len() == 0 {
            0int
        } else {
            row_units_sixths(grid.last()@)
        };
        if last > rest {
            last
        } else {
            rest
        }
    }
}

/// Number of non-empty rows of the grid; only those consume height.
pub open spec fn visible_row_count(grid: Seq<Vec<Key>>) -> int
    decreases grid.len(),
{
    if grid.len() == 0 {
        0
    } else {
        visible_row_count(grid.drop_last()) + if grid.last()@.len() == 0 {
            0int
        } else {
            1int
        }
    }
}

/// Common denominator of a row's horizontal numerators.
pub open spec fn row_den(row: Seq<Key>, widest: int) -> int {
    if space_count(row) > 0 {
        space_count(row) * widest
    } else {
        2 * widest
    }
}

/// Numerator of the gap between two neighbouring keys of a row; its
/// value over the row's denominator is always one sixth of a key width.
pub open spec fn row_gap_num(row: Seq<Key>) -> int {
    if space_count(row) > 0 {
        space_count(row)
    } else {
        2
    }
}

/// Numerator of the padding at either edge of a row: the basic one-sixth
/// gap for a stretching row, and the gap plus half the row's deficit for
/// a row that is centered instead.
pub open spec fn row_edge_num(row: Seq<Key>, widest: int) -> int {
    if space_count(row) > 0 {
        space_count(row)
    } else {
        (widest - row_units_sixths(row)) + 2
    }
}

/// Numerator of the width of key `j` of a row: a space key absorbs an
/// equal share of the row's deficit against the widest row, every other
/// key keeps its fixed relative width.
pub open spec fn key_width_num(row: Seq<Key>, widest: int, j: int) -> int {
    if row[j].is_space() {
        widest - row_units_sixths(row)
    } else {
        row_gap_num(row) * row[j].rel_width_sixths()
    }
}

/// Sum of the width numerators of the first `j` keys of a row.
pub open spec fn key_num_sum_to(row: Seq<Key>, widest: int, j: int) -> int
    decreases j,
{
    if j <= 0 {
        0
    } else {
        key_num_sum_to(row, widest, j - 1) + key_width_num(row, widest, j - 1)
    }
}

/// Sum of a sequence of numerators.
pub open spec fn seq_sum(s: Seq<u64>) -> int
    decreases s.len(),
{
    if s.len() == 0 {
        0
    } else {
        seq_sum(s.drop_last()) + s.last()
    }
}

/// Computed geometry of one row.  Every horizontal length of the row is
/// `available_width * num / den`: the padding before the first and after
/// the last key, the gap between neighbours, and each key's width, in
/// key order.  A row left empty by the layout provider is skipped
/// entirely: it gets no numerators and is never rendered.
pub struct RowGeometry {
    pub den: u64,
    pub lead_num: u64,
    pub gap_num: u64,
    pub trail_num: u64,
    pub key_nums: Vec<u64>,
}

/// Computed geometry of a whole grid.  `rows` is parallel to the input
/// grid.  Vertical lengths are `available_height * num / v_den`: each
/// rendered row is `row_height_num` tall and consecutive rendered rows
/// are `row_gap_num` apart, which together consume exactly one third of
/// the available height.
pub struct GridGeometry {
    pub rows: Vec<RowGeometry>,
    pub widest_sixths: u64,
    pub visible_rows: u64,
    pub row_height_num: u64,
    pub row_gap_num: u64,
    pub v_den: u64,
}

/// What [`compute_geometry`] guarantees of one row: the numerators are
/// exactly the ones the spec functions above prescribe, the two edge
/// paddings are equal (centering), and the row conserves width — padding
/// plus keys plus the `L - 1` inter-key gaps add up to precisely the
/// denominator, i.e. to the whole available width.
pub open spec fn row_geometry_matches(rg: RowGeometry, row: Seq<Key>, widest: int) -> bool {
    if row.len() == 0 {
        &&& rg.key_nums@.len() == 0
        &&& rg.den == 1
        &&& rg.lead_num == 0
        &&& rg.gap_num == 0
        &&& rg.trail_num == 0
    } else {
        &&& rg.den == row_den(row, widest)
        &&& rg.den >= 1
        &&& rg.lead_num == row_edge_num(row, widest)
        &&& rg.trail_num == rg.lead_num
        &&& rg.gap_num == row_gap_num(row)
        &&& rg.key_nums@.len() == row.len()
        &&& (forall|j: int|
            0 <= j < row.len() ==> rg.key_nums@[j] == key_width_num(row, widest, j))
        &&& rg.lead_num + seq_sum(rg.key_nums@) + (row.len() - 1) * rg.gap_num + rg.trail_num
            == rg.den
    }
}

proof fn lemma_push_drop_last<A>(s: Seq<A>, x: A)
    ensures
        s.push(x).drop_last() =~= s,
        s.push(x).last() == x,
{
}

/// No key is wider than one and a half standard keys, nine sixths.
proof fn lemma_keys_width_bounds(row: Seq<Key>)
    ensures
        0 <= keys_width_sixths(row) <= 9 * row.len(),
    decreases row.len(),
{
    if row.len() > 0 {
        lemma_keys_width_bounds(row.drop_last());
    }
}

proof fn lemma_space_count_bounds(row: Seq<Key>)
    ensures
        0 <= space_count(row) <= row.len(),
    decreases row.len(),
{
    if row.len() > 0 {
        lemma_space_count_bounds(row.drop_last());
    }
}

/// The widest row is at least as wide as every non-empty row.
proof fn lemma_widest_ge_row(grid: Seq<Vec<Key>>, i: int)
    requires
        0 <= i < grid.len(),
        grid[i]@.len() > 0,
    ensures
        widest_row_sixths(grid) >= row_units_sixths(grid[i]@),
    decreases grid.len(),
{
    if i < grid.len() - 1 {
        lemma_widest_ge_row(grid.drop_last(), i);
    }
}

/// Bound on the widest row's span, given a bound on row lengths.
proof fn lemma_widest_bound(grid: Seq<Vec<Key>>, max_keys: int)
    requires
        forall|i: int| 0 <= i < grid.len() ==> (#[trigger] grid[i])@.len() <= max_keys,
        max_keys >= 0,
    ensures
        0 <= widest_row_sixths(grid) <= 10 * max_keys + 1,
    decreases grid.len(),
{
    if grid.len() > 0 {
        assert forall|k: int|
            0 <= k < grid.drop_last().len() implies (#[trigger] grid.drop_last()[k])@.len()
            <= max_keys by {
            assert(grid.drop_last()[k] == grid[k]);
        }
        lemma_widest_bound(grid.drop_last(), max_keys);
        assert(grid.last() == grid[grid.len() - 1]);
        lemma_keys_width_bounds(grid.last()@);
    }
}

proof fn lemma_visible_count_bounds(grid: Seq<Vec<Key>>)
    ensures
        0 <= visible_row_count(grid) <= grid.len(),
    decreases grid.len(),
{
    if grid.len() > 0 {
        lemma_visible_count_bounds(grid.drop_last());
    }
}

proof fn lemma_seq_sum_push(s: Seq<u64>, x: u64)
    ensures
        seq_sum(s.push(x)) == seq_sum(s) + x,
{
    lemma_push_drop_last(s, x);
}

/// Closed form of the partial numerator sum: the fixed-width keys of the
/// prefix contribute their relative widths scaled by the gap numerator,
/// and each space key of the prefix contributes the row's deficit.
proof fn lemma_key_num_sum(row: Seq<Key>, widest: int, j: int)
    requires
        0 <= j <= row.len(),
    ensures
        key_num_sum_to(row, widest, j) == row_gap_num(row) * keys_width_sixths(
            row.subrange(0, j),
        ) + space_count(row.subrange(0, j)) * (widest - row_units_sixths(row)),
    decreases j,
{
    let gap = row_gap_num(row);
    let deficit = widest - row_units_sixths(row);
    if j == 0 {
        assert(row.subrange(0, 0) =~= Seq::<Key>::empty());
        assert(gap * 0 == 0) by (nonlinear_arith);
        assert(0 * deficit == 0) by (nonlinear_arith);
    } else {
        lemma_key_num_sum(row, widest, j - 1);
        let pre = row.subrange(0, j - 1);
        let full = row.subrange(0, j);
        assert(full =~= pre.push(row[j - 1]));
        lemma_push_drop_last(pre, row[j - 1]);
        let kpre = keys_width_sixths(pre);
        let spre = space_count(pre);
        if row[j - 1].is_space() {
            assert(keys_width_sixths(full) == kpre);
            assert(space_count(full) == spre + 1);
            assert((spre + 1) * deficit == spre * deficit + deficit) by (nonlinear_arith);
        } else {
            let rel = row[j - 1].rel_width_sixths() as int;
            assert(keys_width_sixths(full) == kpre + rel);
            assert(space_count(full) == spre);
            assert(gap * (kpre + rel) == gap * kpre + gap * rel) by (nonlinear_arith);
        }
    }
}

/// The algebra behind width conservation for a row that stretches: with
/// `c` space keys, denominator `c * widest`, the edges, keys, gaps and
/// absorbed deficit add up to exactly the denominator.
proof fn lemma_stretch_row_algebra(c: int, widest: int, keys: int, len: int) by (nonlinear_arith)
    requires
        c >= 1,
        len >= 1,
        widest >= keys + len + 1,
    ensures
        c + (c * keys + c * (widest - (keys + len + 1))) + (len - 1) * c + c == c * widest,
{
}

/// Stretch correctness: in a row with exactly one space key, the
/// space key's numerator is exactly the row's deficit `D` against the
/// widest row, so the row's relative span plus the stretch equals the
/// widest row's span.
pub proof fn lemma_stretch_closes_deficit(row: Seq<Key>, widest: int, j: int)
    requires
        0 <= j < row.len(),
        row[j].is_space(),
        space_count(row) == 1,
        row_units_sixths(row) <= widest,
    ensures
        key_width_num(row, widest, j) == widest - row_units_sixths(row),
        row_units_sixths(row) + key_width_num(row, widest, j) == widest,
{
}

/// Computes the exact geometry of `grid`.
///
/// The returned rows are parallel to `grid` and each satisfies
/// [`row_geometry_matches`]: numerators as prescribed, equal edge
/// paddings, and exact width conservation.  When at least one row is
/// non-empty, the vertical numbers solve the height equation — `n` rows
/// of height `row_height_num` and `n - 1` gaps of `row_gap_num` over
/// `v_den` consume exactly one third of the available height.
pub fn compute_geometry(grid: &Vec<Vec<Key>>) -> (geometry: GridGeometry)
    requires
        grid@.len() <= MAX_GRID_ROWS,
        forall|i: int| 0 <= i < grid@.len() ==> (#[trigger] grid@[i])@.len() <= MAX_ROW_KEYS,
    ensures
        geometry.widest_sixths == widest_row_sixths(grid@),
        geometry.visible_rows == visible_row_count(grid@),
        geometry.rows@.len() == grid@.len(),
        forall|i: int|
            0 <= i < grid@.len() ==> row_geometry_matches(
                #[trigger] geometry.rows@[i],
                grid@[i]@,
                widest_row_sixths(grid@),
            ),
        visible_row_count(grid@) > 0 ==> geometry.row_height_num == 6,
        visible_row_count(grid@) > 0 ==> geometry.row_gap_num == 1,
        visible_row_count(grid@) > 0 ==> geometry.v_den == 3 * (7 * visible_row_count(grid@) - 1),
        visible_row_count(grid@) > 0 ==> 3 * (visible_row_count(grid@) * geometry.row_height_num
            + (visible_row_count(grid@) - 1) * geometry.row_gap_num) == geometry.v_den,
        visible_row_count(grid@) == 0 ==> geometry.row_height_num == 0 && geometry.row_gap_num
            == 0 && geometry.v_den == 1,
{
    let ghost gseq = grid@;
    let mut widest: u64 = 0;
    let mut visible: u64 = 0;
    let mut i: usize = 0;
    proof {
        assert(gseq.subrange(0, 0) =~= Seq::<Vec<Key>>::empty());
    }
    while i < grid.len()
        invariant
            i <= gseq.len(),
            gseq == grid@,
            gseq.len() <= MAX_GRID_ROWS,
            forall|k: int| 0 <= k < gseq.len() ==> (#[trigger] gseq[k])@.len() <= MAX_ROW_KEYS,
            widest == widest_row_sixths(gseq.subrange(0, i as int)),
            visible == visible_row_count(gseq.subrange(0, i as int)),
            widest <= 10 * MAX_ROW_KEYS + 1,
            visible <= i,
        decreases gseq.len() - i,
    {
        let row = &grid[i];
        proof {
            let pre = gseq.subrange(0, i as int);
            assert(gseq.subrange(0, i as int + 1) =~= pre.push(gseq[i as int]));
            lemma_push_drop_last(pre, gseq[i as int]);
            lemma_keys_width_bounds(row@);
        }
        if row.len() > 0 {
            let units = row_units(row);
            if units > widest {
                widest = units;
            }
            visible = visible + 1;
        }
        i = i + 1;
    }
    proof {
        assert(gseq.subrange(0, gseq.len() as int) =~= gseq);
        lemma_visible_count_bounds(gseq);
    }

    let mut rows: Vec<RowGeometry> = Vec::new();
    let mut i: usize = 0;
    while i < grid.len()
        invariant
            i <= gseq.len(),
            gseq == grid@,
            gseq.len() <= MAX_GRID_ROWS,
            forall|k: int| 0 <= k < gseq.len() ==> (#[trigger] gseq[k])@.len() <= MAX_ROW_KEYS,
            widest == widest_row_sixths(gseq),
            0 <= widest <= 10 * MAX_ROW_KEYS + 1,
            rows@.len() == i,
            forall|k: int|
                0 <= k < i ==> row_geometry_matches(
                    #[trigger] rows@[k],
                    gseq[k]@,
                    widest_row_sixths(gseq),
                ),
        decreases gseq.len() - i,
    {
        let row = &grid[i];
        if row.len() == 0 {
            rows.push(
                RowGeometry {
                    den: 1,
                    lead_num: 0,
                    gap_num: 0,
                    trail_num: 0,
                    key_nums: Vec::new(),
                },
            );
        } else {
            proof {
                lemma_widest_ge_row(gseq, i as int);
                lemma_keys_width_bounds(row@);
                lemma_space_count_bounds(row@);
            }
            let units = row_units(row);
            let spaces = count_spaces(row);
            let deficit = widest - units;
            let gap: u64;
            let den: u64;
            let lead: u64;
            if spaces > 0 {
                proof {
                    assert(spaces * widest <= 100000 * 1000001) by (nonlinear_arith)
                        requires
                            0 <= spaces <= 100000,
                            0 <= widest <= 1000001,
                    ;
                    assert(spaces * widest >= 1) by (nonlinear_arith)
                        requires
                            spaces >= 1,
                            widest >= 1,
                    ;
                }
                gap = spaces;
                den = spaces * widest;
                lead = spaces;
            } else {
                gap = 2;
                den = 2 * widest;
                lead = deficit + 2;
            }
            let key_nums = row_key_nums(row, widest, units, spaces, deficit, gap);
            proof {
                let rowv = row@;
                let w = widest as int;
                let kw = keys_width_sixths(rowv);
                let len = rowv.len() as int;
                lemma_key_num_sum(rowv, w, len);
                assert(rowv.subrange(0, len) =~= rowv);
                assert(seq_sum(key_nums@) == row_gap_num(rowv) * kw + space_count(rowv) * (w
                    - row_units_sixths(rowv)));
                if spaces > 0 {
                    lemma_stretch_row_algebra(spaces as int, w, kw, len);
                    assert(lead + seq_sum(key_nums@) + (len - 1) * gap + lead == den);
                } else {
                    assert(space_count(rowv) * (w - row_units_sixths(rowv)) == 0)
                        by (nonlinear_arith)
                        requires
                            space_count(rowv) == 0,
                    ;
                    assert(seq_sum(key_nums@) == 2 * kw);
                    assert(lead + seq_sum(key_nums@) + (len - 1) * gap + lead == den);
                }
                assert(den == row_den(rowv, w));
                assert(lead == row_edge_num(rowv, w));
                assert(gap == row_gap_num(rowv));
            }
            rows.push(
                RowGeometry { den, lead_num: lead, gap_num: gap, trail_num: lead, key_nums },
            );
        }
        i = i + 1;
    }

    if visible > 0 {
        GridGeometry {
            rows,
            widest_sixths: widest,
            visible_rows: visible,
            row_height_num: 6,
            row_gap_num: 1,
            v_den: 3 * (7 * visible - 1),
        }
    } else {
        GridGeometry {
            rows,
            widest_sixths: widest,
            visible_rows: visible,
            row_height_num: 0,
            row_gap_num: 0,
            v_den: 1,
        }
    }
}

/// Relative span of a non-empty row in sixths: keys plus `L + 1` gaps.
fn row_units(row: &Vec<Key>) -> (units: u64)
    requires
        row@.len() <= MAX_ROW_KEYS,
    ensures
        units == row_units_sixths(row@),
{
    let mut total: u64 = 0;
    let mut j: usize = 0;
    proof {
        assert(row@.subrange(0, 0) =~= Seq::<Key>::empty());
    }
    while j < row.len()
        invariant
            j <= row@.len(),
            row@.len() <= MAX_ROW_KEYS,
            total == keys_width_sixths(row@.subrange(0, j as int)),
            total <= 9 * j,
        decreases row@.len() - j,
    {
        proof {
            let pre = row@.subrange(0, j as int);
            assert(row@.subrange(0, j as int + 1) =~= pre.push(row@[j as int]));
            lemma_push_drop_last(pre, row@[j as int]);
        }
        total = total + row[j].width_sixths();
        j = j + 1;
    }
    proof {
        assert(row@.subrange(0, row@.len() as int) =~= row@);
    }
    total + row.len() as u64 + 1
}

fn count_spaces(row: &Vec<Key>) -> (spaces: u64)
    requires
        row@.len() <= MAX_ROW_KEYS,
    ensures
        spaces == space_count(row@),
{
    let mut spaces: u64 = 0;
    let mut j: usize = 0;
    proof {
        assert(row@.subrange(0, 0) =~= Seq::<Key>::empty());
        lemma_space_count_bounds(row@);
    }
    while j < row.len()
        invariant
            j <= row@.len(),
            row@.len() <= MAX_ROW_KEYS,
            spaces == space_count(row@.subrange(0, j as int)),
            spaces <= j,
        decreases row@.len() - j,
    {
        proof {
            let pre = row@.subrange(0, j as int);
            assert(row@.subrange(0, j as int + 1) =~= pre.push(row@[j as int]));
            lemma_push_drop_last(pre, row@[j as int]);
        }
        if row[j].is_space_key() {
            spaces = spaces + 1;
        }
        j = j + 1;
    }
    proof {
        assert(row@.subrange(0, row@.len() as int) =~= row@);
    }
    spaces
}

/// Width numerators for the keys of a non-empty row, key by key.
fn row_key_nums(
    row: &Vec<Key>,
    widest: u64,
    units: u64,
    spaces: u64,
    deficit: u64,
    gap: u64,
) -> (nums: Vec<u64>)
    requires
        row@.len() >= 1,
        row@.len() <= MAX_ROW_KEYS,
        units == row_units_sixths(row@),
        units <= widest,
        widest <= 1000001,
        spaces == space_count(row@),
        spaces <= row@.len(),
        deficit == widest - units,
        gap == row_gap_num(row@),
    ensures
        nums@.len() == row@.len(),
        forall|j: int| 0 <= j < row@.len() ==> nums@[j] == key_width_num(row@, widest as int, j),
        seq_sum(nums@) == key_num_sum_to(row@, widest as int, row@.len() as int),
{
    let mut nums: Vec<u64> = Vec::new();
    let mut j: usize = 0;
    while j < row.len()
        invariant
            j <= row@.len(),
            row@.len() <= MAX_ROW_KEYS,
            units == row_units_sixths(row@),
            units <= widest,
            widest <= 1000001,
            spaces == space_count(row@),
            spaces <= row@.len(),
            deficit == widest - units,
            gap == row_gap_num(row@),
            nums@.len() == j,
            forall|k: int| 0 <= k < j ==> nums@[k] == key_width_num(row@, widest as int, k),
            seq_sum(nums@) == key_num_sum_to(row@, widest as int, j as int),
        decreases row@.len() - j,
    {
        let key = &row[j];
        let num: u64;
        if key.is_space_key() {
            num = deficit;
        } else {
            let w = key.width_sixths();
            proof {
                assert(gap * w <= 200000 * 9) by (nonlinear_arith)
                    requires
                        0 <= gap <= 200000,
                        0 <= w <= 9,
                ;
            }
            num = gap * w;
        }
        proof {
            lemma_seq_sum_push(nums@, num);
        }
        nums.push(num);
        j = j + 1;
    }
    nums
}

} // verus!
