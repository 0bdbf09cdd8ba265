use crate::area_size::{grid_index, lemma_index_in_grid, lemma_index_injective, AreaSize};
use crate::cell_pair::{CellPair, PairModel, CYCLES_PER_TICK};
use crate::cell_state::{CellModel, CellState};
use crate::direction::Direction;
use crate::position::RelativePosition;
use crate::process::run_steps;
use rayon::iter::{IntoParallelRefMutIterator, ParallelIterator};
use vstd::prelude::*;

verus! {

/// Which partition of the grid into pairs a tick uses. With `reversed` set
/// the two cells of every pair swap roles.
#[derive(Debug, Clone, Copy, PartialEq, Eq, Structural)]
pub enum UpdateState {
    /// Rows `2j` and `2j + 1` of every column.
    Vertical { reversed: bool },
    /// Columns `2j` and `2j + 1` of every row.
    Horizontal { reversed: bool },
    /// Rows `2j + 1` and `2j + 2` of every column, wrapping at the bottom.
    VerticalOffset { reversed: bool },
    /// Columns `2j + 1` and `2j + 2` of every row, wrapping at the right.
    HorizontalOffset { reversed: bool },
}

impl UpdateState {
    pub open spec fn is_reversed(self) -> bool {
        match self {
            UpdateState::Vertical { reversed } => reversed,
            UpdateState::Horizontal { reversed } => reversed,
            UpdateState::VerticalOffset { reversed } => reversed,
            UpdateState::HorizontalOffset { reversed } => reversed,
        }
    }

    /// Pairs of this phase lie along a column.
    pub open spec fn is_vertical(self) -> bool {
        self is Vertical || self is VerticalOffset
    }

    pub open spec fn is_offset(self) -> bool {
        self is VerticalOffset || self is HorizontalOffset
    }

    pub open spec fn spec_next(self) -> UpdateState {
        match self {
            UpdateState::Vertical { reversed } => UpdateState::Horizontal { reversed },
            UpdateState::Horizontal { reversed } => UpdateState::VerticalOffset { reversed },
            UpdateState::VerticalOffset { reversed } => UpdateState::HorizontalOffset { reversed },
            UpdateState::HorizontalOffset { reversed } => UpdateState::Vertical {
                reversed: !reversed,
            },
        }
    }

    /// Number of lines (columns or rows) the pairs of this phase lie along.
    pub open spec fn lines(self, size: AreaSize) -> int {
        if self.is_vertical() {
            size.width as int
        } else {
            size.height as int
        }
    }

    /// Number of pairs on each line.
    pub open spec fn per_line(self, size: AreaSize) -> int {
        if self.is_vertical() {
            size.height as int / 2
        } else {
            size.width as int / 2
        }
    }

    /// The cells, as `(x, y)`, of pair `j` on line `i`, in the order
    /// (first, second) before any reversal.
    pub open spec fn pair_coords(self, size: AreaSize, i: int, j: int) -> ((int, int), (int, int)) {
        let a = if self.is_offset() { 2 * j + 1 } else { 2 * j };
        let extent = if self.is_vertical() { size.height as int } else { size.width as int };
        let b = if self.is_offset() { (2 * j + 2) % extent } else { 2 * j + 1 };
        if self.is_vertical() {
            ((i, a), (i, b))
        } else {
            ((a, i), (b, i))
        }
    }

    /// The (main, neighbour) indices of pair `j` on line `i`.
    pub open spec fn pair_indices(self, size: AreaSize, i: int, j: int) -> (int, int) {
        let (c0, c1) = self.pair_coords(size, i, j);
        let i0 = grid_index(size.width as int, c0.0, c0.1);
        let i1 = grid_index(size.width as int, c1.0, c1.1);
        if self.is_reversed() {
            (i1, i0)
        } else {
            (i0, i1)
        }
    }

    /// All pairs of the phase, line by line.
    pub open spec fn pairs(self, size: AreaSize) -> Seq<(int, int)> {
        let per = self.per_line(size);
        Seq::new(
            (self.lines(size) * per) as nat,
            |n: int| self.pair_indices(size, n / per, n % per),
        )
    }

    /// The phase after this one.
    pub fn next(self) -> (r: Self)
        ensures
            r == self.spec_next(),
    {
        match self {
            Self::Vertical { reversed } => Self::Horizontal { reversed },
            Self::Horizontal { reversed } => Self::VerticalOffset { reversed },
            Self::VerticalOffset { reversed } => Self::HorizontalOffset { reversed },
            Self::HorizontalOffset { reversed } => Self::Vertical { reversed: !reversed },
        }
    }

    /// The range of line numbers `i` of this phase.
    pub fn get_i_range(self, world_size: AreaSize) -> (r: std::ops::Range<u32>)
        requires
            world_size.width <= u32::MAX,
            world_size.height <= u32::MAX,
        ensures
            r.start == 0,
            r.end == self.lines(world_size),
    {
        match self {
            Self::Vertical { .. } | Self::VerticalOffset { .. } => 0..world_size.width as u32,
            Self::Horizontal { .. } | Self::HorizontalOffset { .. } => 0..world_size.height as u32,
        }
    }

    /// The range of pair numbers `j` on each line of this phase.
    pub fn get_j_range(self, world_size: AreaSize) -> (r: std::ops::Range<u32>)
        requires
            world_size.width <= u32::MAX,
            world_size.height <= u32::MAX,
        ensures
            r.start == 0,
            r.end == self.per_line(world_size),
    {
        match self {
            Self::Vertical { .. } | Self::VerticalOffset { .. } => 0..world_size.height as u32 / 2,
            Self::Horizontal { .. } | Self::HorizontalOffset { .. } => 0..world_size.width as u32
                / 2,
        }
    }

    /// The (main, neighbour) indices of pair `j` on line `i`.
    pub fn get_indices(self, world_size: AreaSize, i: u32, j: u32) -> (r: (usize, usize))
        requires
            world_size.fits(),
            world_size.width <= u32::MAX,
            world_size.height <= u32::MAX,
            world_size.width % 2 == 0,
            world_size.height % 2 == 0,
            i < self.lines(world_size),
            j < self.per_line(world_size),
        ensures
            r.0 == self.pair_indices(world_size, i as int, j as int).0,
            r.1 == self.pair_indices(world_size, i as int, j as int).1,
            r.0 < world_size.spec_area(),
            r.1 < world_size.spec_area(),
    {
        let (first, second, reversed) = match self {
            UpdateState::Vertical { reversed } => {
                let y0 = j * 2;
                let y1 = y0 + 1;
                (RelativePosition::new(i, y0), RelativePosition::new(i, y1), reversed)
            },
            UpdateState::VerticalOffset { reversed } => {
                let y0 = j * 2 + 1;
                let y1 = (y0 + 1) % world_size.height as u32;
                (RelativePosition::new(i, y0), RelativePosition::new(i, y1), reversed)
            },
            UpdateState::Horizontal { reversed } => {
                let x0 = j * 2;
                let x1 = x0 + 1;
                (RelativePosition::new(x0, i), RelativePosition::new(x1, i), reversed)
            },
            UpdateState::HorizontalOffset { reversed } => {
                let x0 = j * 2 + 1;
                let x1 = (x0 + 1) % world_size.width as u32;
                (RelativePosition::new(x0, i), RelativePosition::new(x1, i), reversed)
            },
        };
        let index0 = world_size.coords_to_index(first);
        let index1 = world_size.coords_to_index(second);
        if reversed {
            (index1, index0)
        } else {
            (index0, index1)
        }
    }
}

/// `x` reduced modulo `m` when it is at most `m`.
proof fn lemma_mod_at_most(x: int, m: int)
    requires
        0 <= x <= m,
        0 < m,
    ensures
        x % m == (if x < m { x } else { 0 }),
{
    if x < m {
        vstd::arithmetic::div_mod::lemma_fundamental_div_mod_converse(x, m, 0, x);
    } else {
        vstd::arithmetic::div_mod::lemma_fundamental_div_mod_converse(x, m, 1, 0);
    }
}

/// Position `n` of a line-by-line list of `per` items a line is item `n % per` of line `n / per`.
proof fn lemma_line_position(n: int, per: int, i: int, j: int)
    requires
        0 <= j < per,
        0 <= i,
        n == i * per + j,
    ensures
        n / per == i,
        n % per == j,
{
    vstd::arithmetic::div_mod::lemma_fundamental_div_mod_converse(n, per, i, j);
}

/// A list index below `lines * per` names an item within bounds.
proof fn lemma_line_bounds(n: int, per: int, lines: int)
    requires
        0 <= n < lines * per,
        0 < per,
    ensures
        0 <= n / per < lines,
        0 <= n % per < per,
        n == (n / per) * per + n % per,
{
    vstd::arithmetic::div_mod::lemma_fundamental_div_mod(n, per);
    assert(lines * per == per * lines) by (nonlinear_arith);
    vstd::arithmetic::div_mod::lemma_multiply_divide_lt(n, per, lines);
    assert((n / per) * per == per * (n / per)) by (nonlinear_arith);
    assert(0 <= n / per) by (nonlinear_arith)
        requires 0 <= n, 0 < per;
}

/// Grid dimensions on which the phases are defined.
pub open spec fn valid_size(size: AreaSize) -> bool {
    &&& size.fits()
    &&& size.width <= u32::MAX
    &&& size.height <= u32::MAX
    &&& size.width % 2 == 0
    &&& size.height % 2 == 0
}

/// The two cells of a pair are distinct, in bounds, and as coordinates in bounds.
proof fn lemma_pair_in_grid(s: UpdateState, size: AreaSize, i: int, j: int)
    requires
        valid_size(size),
        0 <= i < s.lines(size),
        0 <= j < s.per_line(size),
    ensures
        ({
            let (c0, c1) = s.pair_coords(size, i, j);
            &&& 0 <= c0.0 < size.width && 0 <= c0.1 < size.height
            &&& 0 <= c1.0 < size.width && 0 <= c1.1 < size.height
        }),
        0 <= s.pair_indices(size, i, j).0 < size.spec_area(),
        0 <= s.pair_indices(size, i, j).1 < size.spec_area(),
        s.pair_indices(size, i, j).0 != s.pair_indices(size, i, j).1,
{
    let (c0, c1) = s.pair_coords(size, i, j);
    if s.is_offset() {
        let extent = if s.is_vertical() { size.height as int } else { size.width as int };
        lemma_mod_at_most(2 * j + 2, extent);
    }
    lemma_index_in_grid(size.width as int, size.height as int, c0.0, c0.1);
    lemma_index_in_grid(size.width as int, size.height as int, c1.0, c1.1);
    if grid_index(size.width as int, c0.0, c0.1) == grid_index(size.width as int, c1.0, c1.1) {
        lemma_index_injective(size.width as int, c0.0, c0.1, c1.0, c1.1);
    }
}

/// Two different pairs of one phase share no cell.
proof fn lemma_pairs_apart(s: UpdateState, size: AreaSize, i1: int, j1: int, i2: int, j2: int)
    requires
        valid_size(size),
        0 <= i1 < s.lines(size),
        0 <= j1 < s.per_line(size),
        0 <= i2 < s.lines(size),
        0 <= j2 < s.per_line(size),
        i1 != i2 || j1 != j2,
    ensures
        ({
            let p = s.pair_indices(size, i1, j1);
            let q = s.pair_indices(size, i2, j2);
            p.0 != q.0 && p.0 != q.1 && p.1 != q.0 && p.1 != q.1
        }),
{
    lemma_pair_in_grid(s, size, i1, j1);
    lemma_pair_in_grid(s, size, i2, j2);
    let (a0, a1) = s.pair_coords(size, i1, j1);
    let (b0, b1) = s.pair_coords(size, i2, j2);
    if s.is_offset() {
        let extent = if s.is_vertical() { size.height as int } else { size.width as int };
        lemma_mod_at_most(2 * j1 + 2, extent);
        lemma_mod_at_most(2 * j2 + 2, extent);
    }
    let w = size.width as int;
    if grid_index(w, a0.0, a0.1) == grid_index(w, b0.0, b0.1) {
        lemma_index_injective(w, a0.0, a0.1, b0.0, b0.1);
    }
    if grid_index(w, a0.0, a0.1) == grid_index(w, b1.0, b1.1) {
        lemma_index_injective(w, a0.0, a0.1, b1.0, b1.1);
    }
    if grid_index(w, a1.0, a1.1) == grid_index(w, b0.0, b0.1) {
        lemma_index_injective(w, a1.0, a1.1, b0.0, b0.1);
    }
    if grid_index(w, a1.0, a1.1) == grid_index(w, b1.0, b1.1) {
        lemma_index_injective(w, a1.0, a1.1, b1.0, b1.1);
    }
}

/// Every pair holds two distinct in-bounds cells, and no cell is in two pairs.
pub open spec fn pairs_disjoint(pairs: Seq<(int, int)>, len: int) -> bool {
    &&& forall|n: int|
        #![trigger pairs[n]]
        0 <= n < pairs.len() ==> 0 <= pairs[n].0 < len && 0 <= pairs[n].1 < len && pairs[n].0
            != pairs[n].1
    &&& forall|a: int, b: int|
        #![trigger pairs[a], pairs[b]]
        0 <= a < pairs.len() && 0 <= b < pairs.len() && a != b ==> pairs[a].0 != pairs[b].0
            && pairs[a].0 != pairs[b].1 && pairs[a].1 != pairs[b].0 && pairs[a].1 != pairs[b].1
}

/// Cell `k` is one of the two cells of some pair.
pub open spec fn covers(pairs: Seq<(int, int)>, k: int) -> bool {
    exists|n: int| #![trigger pairs[n]] 0 <= n < pairs.len() && (pairs[n].0 == k || pairs[n].1 == k)
}

/// Each phase partitions the grid: its pairs are disjoint, each of two distinct
/// cells, and together they hold every cell.
pub proof fn lemma_phase_partition(s: UpdateState, size: AreaSize)
    requires
        valid_size(size),
    ensures
        pairs_disjoint(s.pairs(size), size.spec_area()),
        forall|k: int| 0 <= k < size.spec_area() ==> covers(s.pairs(size), k),
{
    let pairs = s.pairs(size);
    let per = s.per_line(size);
    let lines = s.lines(size);
    assert forall|n: int| #![trigger pairs[n]] 0 <= n < pairs.len() implies 0 <= pairs[n].0
        < size.spec_area() && 0 <= pairs[n].1 < size.spec_area() && pairs[n].0 != pairs[n].1 by {
        if per <= 0 {
            assert(lines * per <= 0) by (nonlinear_arith)
                requires per <= 0, lines >= 0;
        }
        lemma_line_bounds(n, per, lines);
        lemma_pair_in_grid(s, size, n / per, n % per);
    }
    assert forall|a: int, b: int|
        #![trigger pairs[a], pairs[b]]
        0 <= a < pairs.len() && 0 <= b < pairs.len() && a != b implies pairs[a].0 != pairs[b].0
        && pairs[a].0 != pairs[b].1 && pairs[a].1 != pairs[b].0 && pairs[a].1 != pairs[b].1 by {
        if per <= 0 {
            assert(lines * per <= 0) by (nonlinear_arith)
                requires per <= 0, lines >= 0;
        }
        lemma_line_bounds(a, per, lines);
        lemma_line_bounds(b, per, lines);
        lemma_pairs_apart(s, size, a / per, a % per, b / per, b % per);
    }
    assert forall|k: int| 0 <= k < size.spec_area() implies covers(pairs, k) by {
        lemma_phase_covers(s, size, k);
    }
}

/// The pair of a phase that holds cell `k`, as (line, pair on the line).
pub open spec fn pair_of_cell(s: UpdateState, size: AreaSize, k: int) -> (int, int) {
    let w = size.width as int;
    let h = size.height as int;
    let x = k % w;
    let y = k / w;
    let (along, other, extent) = if s.is_vertical() { (y, x, h) } else { (x, y, w) };
    let j = if !s.is_offset() {
        along / 2
    } else if along % 2 == 1 {
        (along - 1) / 2
    } else if along == 0 {
        extent / 2 - 1
    } else {
        along / 2 - 1
    };
    (other, j)
}

proof fn lemma_phase_covers(s: UpdateState, size: AreaSize, k: int)
    requires
        valid_size(size),
        0 <= k < size.spec_area(),
    ensures
        covers(s.pairs(size), k),
{
    let w = size.width as int;
    let h = size.height as int;
    assert(w > 0 && h > 0) by (nonlinear_arith)
        requires 0 <= k < w * h, w >= 0, h >= 0;
    let x = k % w;
    let y = k / w;
    vstd::arithmetic::div_mod::lemma_fundamental_div_mod(k, w);
    vstd::arithmetic::div_mod::lemma_multiply_divide_lt(k, w, h);
    assert(w * y == y * w) by (nonlinear_arith);
    assert(0 <= y) by (nonlinear_arith)
        requires 0 <= k, 0 < w, y == k / w;
    assert(grid_index(w, x, y) == k);
    let (i, j) = pair_of_cell(s, size, k);
    let per = s.per_line(size);
    let lines = s.lines(size);
    assert(0 <= i < lines && 0 <= j < per);
    let (c0, c1) = s.pair_coords(size, i, j);
    if s.is_offset() {
        let extent = if s.is_vertical() { h } else { w };
        lemma_mod_at_most(2 * j + 2, extent);
    }
    assert(c0 == (x, y) || c1 == (x, y));
    let n = i * per + j;
    assert(0 <= n < lines * per) by (nonlinear_arith)
        requires 0 <= i < lines, 0 <= j < per, n == i * per + j;
    lemma_line_position(n, per, i, j);
    let pairs = s.pairs(size);
    assert(pairs[n] == s.pair_indices(size, i, j));
    assert(pairs[n].0 == k || pairs[n].1 == k);
}

/// A pair run for a full cycle budget.
pub open spec fn run_pair(main: CellModel, neighbor: CellModel) -> PairModel {
    run_steps(PairModel { main, neighbor }, CYCLES_PER_TICK as nat + 1)
}

/// The cells after one pair has run on them.
pub open spec fn apply_pair(cells: Seq<CellModel>, pair: (int, int)) -> Seq<CellModel> {
    let r = run_pair(cells[pair.0], cells[pair.1]);
    cells.update(pair.0, r.main).update(pair.1, r.neighbor)
}

/// The cells after the pairs have run one after the other, in list order.
pub open spec fn apply_pairs(cells: Seq<CellModel>, pairs: Seq<(int, int)>) -> Seq<CellModel>
    decreases pairs.len(),
{
    if pairs.len() == 0 {
        cells
    } else {
        apply_pair(apply_pairs(cells, pairs.drop_last()), pairs.last())
    }
}

/// The models of a list of cells.
pub open spec fn cells_view(cells: Seq<CellState>) -> Seq<CellModel> {
    cells.map_values(|c: CellState| c@)
}

/// After disjoint pairs have run, each cell holds what its own pair made of
/// it from the cells as they were, and a cell in no pair is unchanged.
pub proof fn lemma_apply_pairs_at(cells: Seq<CellModel>, pairs: Seq<(int, int)>, k: int)
    requires
        pairs_disjoint(pairs, cells.len() as int),
        0 <= k < cells.len(),
    ensures
        apply_pairs(cells, pairs).len() == cells.len(),
        (forall|n: int| 0 <= n < pairs.len() ==> #[trigger] pairs[n].0 != k && pairs[n].1 != k)
            ==> apply_pairs(cells, pairs)[k] == cells[k],
        forall|n: int|
            0 <= n < pairs.len() && #[trigger] pairs[n].0 == k ==> apply_pairs(cells, pairs)[k]
                == run_pair(cells[pairs[n].0], cells[pairs[n].1]).main,
        forall|n: int|
            0 <= n < pairs.len() && #[trigger] pairs[n].1 == k ==> apply_pairs(cells, pairs)[k]
                == run_pair(cells[pairs[n].0], cells[pairs[n].1]).neighbor,
    decreases pairs.len(),
{
    if pairs.len() > 0 {
        let rest = pairs.drop_last();
        let last = pairs.last();
        let l = pairs.len() - 1;
        assert(last == pairs[l]);
        assert(pairs_disjoint(rest, cells.len() as int)) by {
            assert forall|n: int| #![trigger rest[n]] 0 <= n < rest.len() implies rest[n] == pairs[n] by {}
        }
        lemma_apply_pairs_at(cells, rest, k);
        lemma_apply_pairs_at(cells, rest, last.0);
        lemma_apply_pairs_at(cells, rest, last.1);
        assert forall|n: int| 0 <= n < rest.len() implies #[trigger] rest[n].0 != last.0 && rest[n].1 != last.0 && rest[n].0 != last.1 && rest[n].1 != last.1 by {
            assert(rest[n] == pairs[n]);
            assert(pairs[n].0 != pairs[l].0);
        }
        assert forall|n: int| 0 <= n < pairs.len() && #[trigger] pairs[n].0 == k implies apply_pairs(cells, pairs)[k]
                == run_pair(cells[pairs[n].0], cells[pairs[n].1]).main by {
            if n < l {
                assert(rest[n] == pairs[n]);
                assert(pairs[n].0 != pairs[l].0 && pairs[n].0 != pairs[l].1);
            }
        }
        assert forall|n: int| 0 <= n < pairs.len() && #[trigger] pairs[n].1 == k implies apply_pairs(cells, pairs)[k]
                == run_pair(cells[pairs[n].0], cells[pairs[n].1]).neighbor by {
            if n < l {
                assert(rest[n] == pairs[n]);
                assert(pairs[n].1 != pairs[l].0 && pairs[n].1 != pairs[l].1);
            }
        }
        if forall|n: int| 0 <= n < pairs.len() ==> #[trigger] pairs[n].0 != k && pairs[n].1 != k {
            assert forall|n: int| 0 <= n < rest.len() implies #[trigger] rest[n].0 != k && rest[n].1 != k by {
                assert(rest[n] == pairs[n]);
            }
            assert(pairs[l].0 != k && pairs[l].1 != k);
        }
    }
}

/// Running the disjoint pairs of a list in any order gives the same cells.
pub proof fn lemma_pair_order_irrelevant(
    cells: Seq<CellModel>,
    pairs: Seq<(int, int)>,
    reordered: Seq<(int, int)>,
)
    requires
        pairs_disjoint(pairs, cells.len() as int),
        reordered.to_multiset() == pairs.to_multiset(),
    ensures
        apply_pairs(cells, reordered) == apply_pairs(cells, pairs),
{
    broadcast use vstd::seq_lib::group_to_multiset_ensures;

    assert(pairs.no_duplicates()) by {
        assert forall|a: int, b: int| 0 <= a < pairs.len() && 0 <= b < pairs.len() && a != b implies pairs[a] != pairs[b] by {
            assert(pairs[a].0 != pairs[b].0);
        }
    }
    pairs.lemma_multiset_has_no_duplicates();
    reordered.lemma_multiset_has_no_duplicates_conv();
    assert forall|n: int| #![trigger reordered[n]] 0 <= n < reordered.len() implies pairs.contains(reordered[n]) by {
        assert(reordered.to_multiset().count(reordered[n]) > 0);
    }
    assert forall|n: int| #![trigger pairs[n]] 0 <= n < pairs.len() implies reordered.contains(pairs[n]) by {
        assert(pairs.to_multiset().count(pairs[n]) > 0);
    }
    assert(pairs_disjoint(reordered, cells.len() as int)) by {
        assert forall|n: int| #![trigger reordered[n]] 0 <= n < reordered.len() implies 0 <= reordered[n].0 < cells.len() && 0 <= reordered[n].1 < cells.len() && reordered[n].0 != reordered[n].1 by {
            assert(pairs.contains(reordered[n]));
        }
        assert forall|a: int, b: int| #![trigger reordered[a], reordered[b]] 0 <= a < reordered.len() && 0 <= b < reordered.len() && a != b implies reordered[a].0 != reordered[b].0
            && reordered[a].0 != reordered[b].1 && reordered[a].1 != reordered[b].0 && reordered[a].1 != reordered[b].1 by {
            assert(pairs.contains(reordered[a]));
            assert(pairs.contains(reordered[b]));
            let ia = choose|i: int| 0 <= i < pairs.len() && pairs[i] == reordered[a];
            let ib = choose|i: int| 0 <= i < pairs.len() && pairs[i] == reordered[b];
            assert(reordered[a] != reordered[b]);
            assert(ia != ib);
        }
    }
    let x = apply_pairs(cells, reordered);
    let y = apply_pairs(cells, pairs);
    assert forall|k: int| 0 <= k < cells.len() implies x[k] == y[k] by {
        lemma_apply_pairs_at(cells, reordered, k);
        lemma_apply_pairs_at(cells, pairs, k);
        if exists|n: int| 0 <= n < pairs.len() && (#[trigger] pairs[n]).0 == k {
            let n = choose|n: int| 0 <= n < pairs.len() && (#[trigger] pairs[n]).0 == k;
            assert(reordered.contains(pairs[n]));
            let m = choose|m: int| 0 <= m < reordered.len() && reordered[m] == pairs[n];
            assert(reordered[m].0 == k);
        } else if exists|n: int| 0 <= n < pairs.len() && (#[trigger] pairs[n]).1 == k {
            let n = choose|n: int| 0 <= n < pairs.len() && (#[trigger] pairs[n]).1 == k;
            assert(reordered.contains(pairs[n]));
            let m = choose|m: int| 0 <= m < reordered.len() && reordered[m] == pairs[n];
            assert(reordered[m].1 == k);
        } else {
            assert forall|m: int| 0 <= m < reordered.len() implies #[trigger] reordered[m].0 != k && reordered[m].1 != k by {
                assert(pairs.contains(reordered[m]));
            }
        }
    }
    if cells.len() > 0 {
        lemma_apply_pairs_at(cells, reordered, 0);
        lemma_apply_pairs_at(cells, pairs, 0);
    } else {
        if pairs.len() > 0 {
            assert(0 <= pairs[0].0 < cells.len());
        }
        if reordered.len() > 0 {
            assert(0 <= reordered[0].0 < cells.len());
        }
    }
    assert(x =~= y);
}

/// Relies on rayon's `par_iter_mut().for_each`: the closure is called exactly
/// once on each element of the vector, on worker threads, and the call returns
/// once all have finished. The vector keeps its length and order.
#[verifier::external_body]
fn tick_all_in_parallel(pairs: &mut Vec<CellPair>)
    ensures
        final(pairs)@.len() == old(pairs)@.len(),
        forall|n: int|
            0 <= n < old(pairs)@.len() ==> (#[trigger] final(pairs)@[n])@ == run_steps(
                old(pairs)@[n]@,
                old(pairs)@[n].cycles_to_run as nat + 1,
            ),
{
    pairs.par_iter_mut().for_each(CellPair::tick);
}

/// The grid of cells and the phase its next tick runs.
pub struct World {
    pub size: AreaSize,
    /// The cells, row by row.
    pub cells: Vec<CellState>,
    pub update_stage: UpdateState,
    pub cell_cycles_per_tick: usize,
}

impl World {
    pub open spec fn wf(&self) -> bool {
        &&& valid_size(self.size)
        &&& self.cells@.len() == self.size.spec_area()
    }

    /// A world of random cells; `size` must have even extents.
    pub fn new(size: AreaSize) -> (r: Self)
        requires
            valid_size(size),
        ensures
            r.wf(),
            r.size == size,
            r.update_stage == (UpdateState::Vertical { reversed: false }),
    {
        let area = size.area();
        let mut cells: Vec<CellState> = Vec::new();
        while cells.len() < area
            invariant
                cells@.len() <= area,
            decreases area - cells@.len(),
        {
            cells.push(CellState::random());
        }
        Self {
            size,
            cells,
            update_stage: UpdateState::Vertical { reversed: false },
            cell_cycles_per_tick: 256,
        }
    }

    /// A world holding the given cells, row by row; `size` must have even extents.
    pub fn from_cells(size: AreaSize, cells: Vec<CellState>) -> (r: Self)
        requires
            valid_size(size),
            cells@.len() == size.spec_area(),
        ensures
            r.wf(),
            r.size == size,
            r.cells@ == cells@,
            r.update_stage == (UpdateState::Vertical { reversed: false }),
    {
        Self {
            size,
            cells,
            update_stage: UpdateState::Vertical { reversed: false },
            cell_cycles_per_tick: 256,
        }
    }

    /// Replace every cell by a random one and start again from the first phase.
    pub fn reset(&mut self)
        requires
            old(self).wf(),
        ensures
            final(self).wf(),
            final(self).size == old(self).size,
            final(self).update_stage == (UpdateState::Vertical { reversed: false }),
    {
        *self = World::new(self.size);
    }

    /// The size of the rendered world: a 7 by 7 tile for each cell.
    pub fn get_image_size(&self) -> (r: AreaSize)
        requires
            self.size.width * 7 <= usize::MAX,
            self.size.height * 7 <= usize::MAX,
        ensures
            r.width == self.size.width * 7,
            r.height == self.size.height * 7,
    {
        self.size.scaled(AreaSize::splat(CellState::CANVAS_SIDE))
    }

    /// Run one phase: every pair of the current phase runs its cycle budget,
    /// all pairs in parallel, and the phase advances. The new cells are those
    /// the pairs give when run one after the other (in any order, by
    /// `lemma_phase_order_irrelevant`); they depend on the old cells, the phase
    /// and the size alone, so no randomness is drawn.
    pub fn tick(&mut self)
        requires
            old(self).wf(),
        ensures
            final(self).wf(),
            final(self).size == old(self).size,
            final(self).update_stage == old(self).update_stage.spec_next(),
            cells_view(final(self).cells@) == apply_pairs(
                cells_view(old(self).cells@),
                old(self).update_stage.pairs(old(self).size),
            ),
    {
        let stage = self.update_stage;
        let size = self.size;
        let ghost old_cells = cells_view(self.cells@);
        let ghost plan = stage.pairs(size);
        proof {
            lemma_phase_partition(stage, size);
        }
        self.update_stage = stage.next();
        let lines = stage.get_i_range(size).end;
        let per = stage.get_j_range(size).end;
        let mut indices: Vec<(usize, usize)> = Vec::new();
        let mut pairs: Vec<CellPair> = Vec::new();
        let mut i: u32 = 0;
        while i < lines
            invariant
                self.wf(),
                self.size == size,
                self.update_stage == stage.spec_next(),
                cells_view(self.cells@) == old_cells,
                lines == stage.lines(size),
                per == stage.per_line(size),
                plan == stage.pairs(size),
                i <= lines,
                indices@.len() == i * per,
                pairs@.len() == indices@.len(),
                forall|n: int|
                    #![trigger indices@[n]]
                    0 <= n < indices@.len() ==> indices@[n].0 == plan[n].0 && indices@[n].1
                        == plan[n].1,
                forall|n: int|
                    #![trigger pairs@[n]]
                    0 <= n < pairs@.len() ==> pairs@[n]@ == (PairModel {
                        main: old_cells[plan[n].0],
                        neighbor: old_cells[plan[n].1],
                    }) && pairs@[n].cycles_to_run == CYCLES_PER_TICK,
            decreases lines - i,
        {
            let mut j: u32 = 0;
            while j < per
                invariant
                    self.wf(),
                    self.size == size,
                    self.update_stage == stage.spec_next(),
                    cells_view(self.cells@) == old_cells,
                    lines == stage.lines(size),
                    per == stage.per_line(size),
                    plan == stage.pairs(size),
                    i < lines,
                    j <= per,
                    indices@.len() == i * per + j,
                    pairs@.len() == indices@.len(),
                    forall|n: int|
                        #![trigger indices@[n]]
                        0 <= n < indices@.len() ==> indices@[n].0 == plan[n].0 && indices@[n].1
                            == plan[n].1,
                    forall|n: int|
                        #![trigger pairs@[n]]
                        0 <= n < pairs@.len() ==> pairs@[n]@ == (PairModel {
                            main: old_cells[plan[n].0],
                            neighbor: old_cells[plan[n].1],
                        }) && pairs@[n].cycles_to_run == CYCLES_PER_TICK,
                decreases per - j,
            {
                let (main_index, neighbor_index) = stage.get_indices(size, i, j);
                proof {
                    let n = i * per + j;
                    lemma_line_position(n, per as int, i as int, j as int);
                    assert(n < lines * per) by (nonlinear_arith)
                        requires i < lines, j < per, n == i * per + j;
                }
                let pair = CellPair::new(self.cells[main_index], self.cells[neighbor_index]);
                pairs.push(pair);
                indices.push((main_index, neighbor_index));
                j = j + 1;
            }
            proof {
                assert(i * per + per == (i + 1) * per) by (nonlinear_arith);
            }
            i = i + 1;
        }
        assert(plan.len() == indices@.len());
        tick_all_in_parallel(&mut pairs);
        let mut n: usize = 0;
        while n < pairs.len()
            invariant
                self.wf(),
                self.size == size,
                self.update_stage == stage.spec_next(),
                plan == stage.pairs(size),
                pairs_disjoint(plan, size.spec_area()),
                old_cells.len() == size.spec_area(),
                plan.len() == indices@.len(),
                pairs@.len() == indices@.len(),
                n <= pairs@.len(),
                forall|m: int|
                    #![trigger indices@[m]]
                    0 <= m < indices@.len() ==> indices@[m].0 == plan[m].0 && indices@[m].1
                        == plan[m].1,
                forall|m: int|
                    #![trigger pairs@[m]]
                    0 <= m < pairs@.len() ==> pairs@[m]@ == run_pair(
                        old_cells[plan[m].0],
                        old_cells[plan[m].1],
                    ),
                cells_view(self.cells@) == apply_pairs(old_cells, plan.take(n as int)),
            decreases pairs@.len() - n,
        {
            let (main_index, neighbor_index) = indices[n];
            let pair = pairs[n];
            proof {
                let done = plan.take(n as int);
                assert(pairs_disjoint(done, size.spec_area())) by {
                    assert forall|m: int| #![trigger done[m]] 0 <= m < done.len() implies done[m] == plan[m] by {}
                }
                lemma_apply_pairs_at(old_cells, done, plan[n as int].0);
                lemma_apply_pairs_at(old_cells, done, plan[n as int].1);
                assert forall|m: int| 0 <= m < done.len() implies #[trigger] done[m].0 != plan[n as int].0 && done[m].1 != plan[n as int].0 && done[m].0 != plan[n as int].1 && done[m].1 != plan[n as int].1 by {
                    assert(done[m] == plan[m]);
                    assert(plan[m].0 != plan[n as int].0);
                }
                assert(plan.take(n + 1).drop_last() =~= done);
                assert(plan.take(n + 1).last() == plan[n as int]);
            }
            self.cells.set(main_index, pair.main);
            self.cells.set(neighbor_index, pair.neighbor);
            proof {
                let done = plan.take(n as int);
                let before = apply_pairs(old_cells, done);
                let r = run_pair(old_cells[plan[n as int].0], old_cells[plan[n as int].1]);
                assert(cells_view(self.cells@) =~= before.update(plan[n as int].0, r.main).update(plan[n as int].1, r.neighbor));
            }
            n = n + 1;
        }
        assert(plan.take(plan.len() as int) =~= plan);
    }
}

/// Evaluating the pairs of one phase one after the other, in any order, gives
/// the same cells.
pub proof fn lemma_phase_order_irrelevant(
    s: UpdateState,
    size: AreaSize,
    cells: Seq<CellModel>,
    order: Seq<(int, int)>,
)
    requires
        valid_size(size),
        cells.len() == size.spec_area(),
        order.to_multiset() == s.pairs(size).to_multiset(),
    ensures
        apply_pairs(cells, order) == apply_pairs(cells, s.pairs(size)),
{
    lemma_phase_partition(s, size);
    lemma_pair_order_irrelevant(cells, s.pairs(size), order);
}

/// The phase `t` ticks after `s`.
pub open spec fn stage_after(s: UpdateState, t: nat) -> UpdateState
    decreases t,
{
    if t == 0 {
        s
    } else {
        stage_after(s, (t - 1) as nat).spec_next()
    }
}

/// Position of a phase in the cycle of eight.
pub open spec fn stage_number(s: UpdateState) -> int {
    let kind: int = match s {
        UpdateState::Vertical { .. } => 0,
        UpdateState::Horizontal { .. } => 1,
        UpdateState::VerticalOffset { .. } => 2,
        UpdateState::HorizontalOffset { .. } => 3,
    };
    kind + if s.is_reversed() { 4int } else { 0int }
}

proof fn lemma_stage_after_number(s: UpdateState, t: nat)
    ensures
        stage_number(stage_after(s, t)) == (stage_number(s) + t) % 8,
    decreases t,
{
    if t > 0 {
        lemma_stage_after_number(s, (t - 1) as nat);
        let prev = stage_after(s, (t - 1) as nat);
        assert(stage_number(prev.spec_next()) == (stage_number(prev) + 1) % 8);
        vstd::arithmetic::div_mod::lemma_add_mod_noop(stage_number(s) + t - 1, 1, 8);
    }
}

/// Every phase comes within eight ticks of any phase.
proof fn lemma_stage_reached(s: UpdateState, target: UpdateState)
    ensures
        exists|t: int| 0 <= t < 8 && #[trigger] stage_after(s, t as nat) == target,
{
    let t = (stage_number(target) - stage_number(s) + 8) % 8;
    lemma_stage_after_number(s, t as nat);
    let reached = stage_after(s, t as nat);
    assert(stage_number(reached) == stage_number(target));
    assert(reached == target);
}

/// `v` moved back into `[0, extent)` when it is one step outside it.
pub open spec fn wrap(v: int, extent: int) -> int {
    if v < 0 {
        v + extent
    } else if v >= extent {
        v - extent
    } else {
        v
    }
}

/// The index of the cell one step from cell `k` in direction `d`, on the torus.
pub open spec fn neighbor_index(size: AreaSize, k: int, d: Direction) -> int {
    let w = size.width as int;
    let h = size.height as int;
    grid_index(w, wrap(k % w + d.offset().0, w), wrap(k / w + d.offset().1, h))
}

/// Over any eight consecutive ticks, every cell is the main cell of a pair
/// with each of its four axis neighbours.
pub proof fn lemma_meets_every_neighbor(s: UpdateState, size: AreaSize, k: int, d: Direction)
    requires
        valid_size(size),
        0 <= k < size.spec_area(),
    ensures
        exists|t: int, i: int, j: int|
            #![trigger stage_after(s, t as nat).pair_indices(size, i, j)]
            0 <= t < 8 && 0 <= i < stage_after(s, t as nat).lines(size) && 0 <= j
                < stage_after(s, t as nat).per_line(size) && stage_after(s, t as nat).pair_indices(
                size,
                i,
                j,
            ) == (k, neighbor_index(size, k, d)),
{
    let w = size.width as int;
    let h = size.height as int;
    assert(w > 0 && h > 0) by (nonlinear_arith)
        requires 0 <= k < w * h, w >= 0, h >= 0;
    let x = k % w;
    let y = k / w;
    vstd::arithmetic::div_mod::lemma_fundamental_div_mod(k, w);
    vstd::arithmetic::div_mod::lemma_multiply_divide_lt(k, w, h);
    assert(w * y == y * w) by (nonlinear_arith);
    assert(0 <= y) by (nonlinear_arith)
        requires 0 <= k, 0 < w, y == k / w;
    assert(grid_index(w, x, y) == k);
    let (target, i, j) = match d {
        Direction::South => if y % 2 == 0 {
            (UpdateState::Vertical { reversed: false }, x, y / 2)
        } else {
            (UpdateState::VerticalOffset { reversed: false }, x, (y - 1) / 2)
        },
        Direction::North => if y % 2 == 1 {
            (UpdateState::Vertical { reversed: true }, x, (y - 1) / 2)
        } else if y == 0 {
            (UpdateState::VerticalOffset { reversed: true }, x, h / 2 - 1)
        } else {
            (UpdateState::VerticalOffset { reversed: true }, x, y / 2 - 1)
        },
        Direction::East => if x % 2 == 0 {
            (UpdateState::Horizontal { reversed: false }, y, x / 2)
        } else {
            (UpdateState::HorizontalOffset { reversed: false }, y, (x - 1) / 2)
        },
        Direction::West => if x % 2 == 1 {
            (UpdateState::Horizontal { reversed: true }, y, (x - 1) / 2)
        } else if x == 0 {
            (UpdateState::HorizontalOffset { reversed: true }, y, w / 2 - 1)
        } else {
            (UpdateState::HorizontalOffset { reversed: true }, y, x / 2 - 1)
        },
    };
    if target.is_offset() {
        let extent = if target.is_vertical() { h } else { w };
        lemma_mod_at_most(2 * j + 2, extent);
    }
    assert(0 <= i < target.lines(size) && 0 <= j < target.per_line(size));
    assert(target.pair_indices(size, i, j) == (k, neighbor_index(size, k, d)));
    lemma_stage_reached(s, target);
    let t = choose|t: int| 0 <= t < 8 && #[trigger] stage_after(s, t as nat) == target;
    assert(stage_after(s, t as nat).pair_indices(size, i, j) == (k, neighbor_index(size, k, d)));
}

} // verus!
