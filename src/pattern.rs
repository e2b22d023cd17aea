//! Gesture patterns: a state machine fed with pointer samples that says,
//! sample by sample, whether the pointer is tracing the pattern.

use crate::geometry::{Grid, GridCell};
use std::collections::VecDeque;
use vstd::prelude::*;

verus! {

/// The verdict on one pointer sample.
#[derive(Clone, Copy, Debug, PartialEq, Eq, Structural, PartialOrd, Ord)]
pub enum PatternStatus {
    /// The pointer left the cells the pattern allows; the attempt failed.
    WrongPattern,
    /// The pointer came back to the start cell: the pattern was traced.
    PatternFinished,
    /// The attempt goes on.
    PatternProgressing,
}

/// A gesture recognised from a stream of pointer samples.
///
/// `Self::V` is the state of recognition; `sample` says how one sample changes
/// it and what verdict it earns, `restart` what state a new attempt starts in.
pub trait Pattern: View + Sized {
    spec fn valid(v: Self::V) -> bool;

    spec fn sample(v: Self::V, x: int, y: int) -> (Self::V, PatternStatus);

    spec fn restart(v: Self::V) -> Self::V;

    /// Takes the pointer sample `(x, y)` and returns its verdict.
    fn check_position(&mut self, x: i32, y: i32) -> (r: PatternStatus)
        requires
            Self::valid(old(self)@),
        ensures
            Self::valid(final(self)@),
            (final(self)@, r) == Self::sample(old(self)@, x as int, y as int),
    ;

    /// Makes ready for a new attempt.
    fn reset_visited(&mut self)
        requires
            Self::valid(old(self)@),
        ensures
            Self::valid(final(self)@),
            final(self)@ == Self::restart(old(self)@),
    ;
}

/// The top edge of the perimeter, left to right, without its first cell.
pub open spec fn top_edge(nh: int) -> Seq<GridCell> {
    Seq::new((nh - 1) as nat, |i: int| ((i + 1) as u8, 0u8))
}

/// The right edge, top to bottom, without its first cell.
pub open spec fn right_edge(nh: int, nv: int) -> Seq<GridCell> {
    Seq::new((nv - 1) as nat, |i: int| ((nh - 1) as u8, (i + 1) as u8))
}

/// The bottom edge, right to left, without its first cell.
pub open spec fn bottom_edge(nh: int, nv: int) -> Seq<GridCell> {
    Seq::new((nh - 1) as nat, |i: int| ((nh - 2 - i) as u8, (nv - 1) as u8))
}

/// The left edge, bottom to top, without its first cell.
pub open spec fn left_edge(nv: int) -> Seq<GridCell> {
    Seq::new((nv - 1) as nat, |i: int| (0u8, (nv - 2 - i) as u8))
}

/// The cells of the grid's border in clockwise order, from the cell right of
/// the top-left one round to the top-left cell itself.
pub open spec fn perimeter_walk(grid: Grid) -> Seq<GridCell> {
    let (nh, nv) = (grid.n_horizontal as int, grid.n_vertical as int);
    top_edge(nh) + right_edge(nh, nv) + bottom_edge(nh, nv) + left_edge(nv)
}

/// The number of cells in the walk: `2 * (nh - 1) + 2 * (nv - 1)`.
pub open spec fn walk_len(grid: Grid) -> int {
    2 * (grid.n_horizontal - 1) + 2 * (grid.n_vertical - 1)
}

/// The state of recognition of a rectangle pattern.
pub struct RectangleState {
    pub grid: Grid,
    pub start_node: GridCell,
    pub last_visited: GridCell,
    pub to_visit: Seq<GridCell>,
}

/// The state in which an attempt starts: at the start node, the whole walk
/// ahead.
pub open spec fn initial_state(grid: Grid) -> RectangleState {
    RectangleState {
        grid,
        start_node: (0u8, 0u8),
        last_visited: (0u8, 0u8),
        to_visit: perimeter_walk(grid),
    }
}

/// `s` is a valid state: a grid of at least two columns and two rows, the
/// start at its top-left cell, and a walk done up to some point `k`: what is
/// left to visit is the rest of the walk, and the last cell visited is the
/// walk's `k`-th cell (the start node before the first).
pub open spec fn rectangle_valid(s: RectangleState) -> bool {
    &&& s.grid.n_horizontal >= 2
    &&& s.grid.n_vertical >= 2
    &&& s.start_node == (0u8, 0u8)
    &&& exists|k: int| #[trigger] walked(s, k)
}

/// `k` cells of the walk of `s` have been visited.
pub open spec fn walked(s: RectangleState, k: int) -> bool {
    let walk = perimeter_walk(s.grid);
    &&& 0 <= k <= walk.len()
    &&& s.to_visit == walk.skip(k)
    &&& s.last_visited == if k == 0 {
        s.start_node
    } else {
        walk[k - 1]
    }
}

/// One step of a rectangle pattern on the sample `(x, y)`. A sample in the
/// last cell visited changes nothing; one in the next cell to visit moves
/// there, and finishes the pattern if that cell is the start node; any other
/// sample is a wrong move and changes nothing.
pub open spec fn rectangle_step(s: RectangleState, x: int, y: int) -> (
    RectangleState,
    PatternStatus,
) {
    if s.grid.contains_spec(s.last_visited, x, y) {
        (s, PatternStatus::PatternProgressing)
    } else if s.to_visit.len() > 0 && s.grid.contains_spec(s.to_visit[0], x, y) {
        let next = s.to_visit[0];
        (
            RectangleState { last_visited: next, to_visit: s.to_visit.drop_first(), ..s },
            if next == s.start_node {
                PatternStatus::PatternFinished
            } else {
                PatternStatus::PatternProgressing
            },
        )
    } else {
        (s, PatternStatus::WrongPattern)
    }
}

/// A closed walk round the border of a grid of cells, clockwise from the
/// top-left cell back to it.
pub struct RectanglePattern {
    grid: Grid,
    start_node: GridCell,
    last_visited: GridCell,
    to_visit: VecDeque<GridCell>,
}

impl View for RectanglePattern {
    type V = RectangleState;

    closed spec fn view(&self) -> RectangleState {
        RectangleState {
            grid: self.grid,
            start_node: self.start_node,
            last_visited: self.last_visited,
            to_visit: self.to_visit@,
        }
    }
}

/// The grid of the rectangle pattern: six columns, three rows.
pub open spec fn rectangle_grid(display_height: u32, display_width: u32) -> Grid {
    Grid { width: display_width, height: display_height, n_horizontal: 6, n_vertical: 3 }
}


/// The walk round a grid of at least two columns and two rows has
/// `2 * (nh - 1) + 2 * (nv - 1)` cells and meets the top-left cell once: at
/// its end.
pub proof fn lemma_walk_shape(grid: Grid)
    requires
        grid.n_horizontal >= 2,
        grid.n_vertical >= 2,
    ensures
        perimeter_walk(grid).len() == walk_len(grid),
        perimeter_walk(grid).last() == (0u8, 0u8),
        forall|i: int|
            0 <= i < perimeter_walk(grid).len() - 1 ==> #[trigger] perimeter_walk(grid)[i] != (
            0u8,
            0u8,
        ),
{
    let (nh, nv) = (grid.n_horizontal as int, grid.n_vertical as int);
    let walk = perimeter_walk(grid);
    let (t, r, b, l) = (top_edge(nh), right_edge(nh, nv), bottom_edge(nh, nv), left_edge(nv));
    assert(walk.len() == t.len() + r.len() + b.len() + l.len());
    assert forall|i: int| 0 <= i < walk.len() - 1 implies #[trigger] walk[i] != (0u8, 0u8) by {
        if i < t.len() {
            assert(walk[i] == t[i]);
        } else if i < t.len() + r.len() {
            assert(walk[i] == r[i - t.len()]);
        } else if i < t.len() + r.len() + b.len() {
            assert(walk[i] == b[i - t.len() - r.len()]);
        } else {
            assert(walk[i] == l[i - t.len() - r.len() - b.len()]);
        }
    }
    assert(walk.last() == l[nv - 2]);
}

impl RectanglePattern {
    /// A rectangle pattern over a display of the given size, ready for a first
    /// attempt.
    pub fn new(display_height: u32, display_width: u32) -> (r: RectanglePattern)
        ensures
            rectangle_valid(r@),
            r@ == initial_state(rectangle_grid(display_height, display_width)),
    {
        let start_node: GridCell = (0, 0);
        let mut rectangle_pattern = RectanglePattern {
            grid: Grid::new(display_width, display_height, 6, 3),
            start_node,
            last_visited: start_node,
            to_visit: VecDeque::new(),
        };
        rectangle_pattern.rebuild();
        rectangle_pattern
    }

    /// Puts the whole walk back in the queue and the last cell visited back
    /// on the start node.
    fn rebuild(&mut self)
        requires
            old(self).grid.n_horizontal >= 2,
            old(self).grid.n_vertical >= 2,
            old(self).start_node == (0u8, 0u8),
        ensures
            final(self)@ == initial_state(old(self).grid),
            rectangle_valid(final(self)@),
    {
        let nh = self.grid.n_horizontal;
        let nv = self.grid.n_vertical;
        let ghost (h, v) = (nh as int, nv as int);
        let mut to_visit: VecDeque<GridCell> = VecDeque::new();

        let mut i: u8 = 1;
        while i < nh
            invariant
                h == nh,
                v == nv,
                1 <= i <= nh,
                to_visit@ =~= top_edge(h).take(i - 1),
            decreases nh - i,
        {
            to_visit.push_back((i, 0));
            assert(to_visit@ =~= top_edge(h).take(i as int));
            i = i + 1;
        }
        assert(to_visit@ =~= top_edge(h));

        let mut i: u8 = 1;
        while i < nv
            invariant
                h == nh,
                v == nv,
                1 <= i <= nv,
                2 <= nh,
                to_visit@ =~= top_edge(h) + right_edge(h, v).take(i - 1),
            decreases nv - i,
        {
            to_visit.push_back((nh - 1, i));
            assert(to_visit@ =~= top_edge(h) + right_edge(h, v).take(i as int));
            i = i + 1;
        }
        assert(to_visit@ =~= top_edge(h) + right_edge(h, v));

        let mut i: u8 = 1;
        while i < nh
            invariant
                h == nh,
                v == nv,
                1 <= i <= nh,
                2 <= nv,
                to_visit@ =~= top_edge(h) + right_edge(h, v) + bottom_edge(h, v).take(i - 1),
            decreases nh - i,
        {
            to_visit.push_back((nh - i - 1, nv - 1));
            assert(to_visit@ =~= top_edge(h) + right_edge(h, v) + bottom_edge(h, v).take(
                i as int,
            ));
            i = i + 1;
        }
        assert(to_visit@ =~= top_edge(h) + right_edge(h, v) + bottom_edge(h, v));

        let mut i: u8 = 1;
        while i < nv
            invariant
                h == nh,
                v == nv,
                1 <= i <= nv,
                to_visit@ =~= top_edge(h) + right_edge(h, v) + bottom_edge(h, v) + left_edge(
                    v,
                ).take(i - 1),
            decreases nv - i,
        {
            to_visit.push_back((0, nv - i - 1));
            assert(to_visit@ =~= top_edge(h) + right_edge(h, v) + bottom_edge(h, v) + left_edge(
                v,
            ).take(i as int));
            i = i + 1;
        }
        assert(to_visit@ =~= perimeter_walk(self.grid));

        self.to_visit = to_visit;
        self.last_visited = self.start_node;
        assert(self@.to_visit =~= perimeter_walk(self.grid).skip(0));
        assert(walked(self@, 0));
    }
}

impl Pattern for RectanglePattern {
    open spec fn valid(v: RectangleState) -> bool {
        rectangle_valid(v)
    }

    open spec fn sample(v: RectangleState, x: int, y: int) -> (RectangleState, PatternStatus) {
        rectangle_step(v, x, y)
    }

    open spec fn restart(v: RectangleState) -> RectangleState {
        initial_state(v.grid)
    }

    fn check_position(&mut self, x: i32, y: i32) -> (r: PatternStatus) {
        if self.grid.contains(self.last_visited, x, y) {
            PatternStatus::PatternProgressing
        } else if self.to_visit.len() > 0 && self.grid.contains(self.to_visit[0], x, y) {
            let ghost s = self@;
            let ghost k = choose|k: int| walked(s, k);
            let next = self.to_visit[0];
            self.to_visit.pop_front();
            self.last_visited = next;
            proof {
                let walk = perimeter_walk(s.grid);
                assert(walk.skip(k + 1) =~= walk.skip(k).drop_first());
                assert(walked(self@, k + 1));
            }
            if next.0 == self.start_node.0 && next.1 == self.start_node.1 {
                PatternStatus::PatternFinished
            } else {
                PatternStatus::PatternProgressing
            }
        } else {
            PatternStatus::WrongPattern
        }
    }

    fn reset_visited(&mut self) {
        self.rebuild();
    }
}


/// The states and verdicts of a rectangle pattern fed with `samples` in turn,
/// with no reset in between.
pub open spec fn run_samples(s: RectangleState, samples: Seq<(int, int)>) -> (
    RectangleState,
    Seq<PatternStatus>,
)
    decreases samples.len(),
{
    if samples.len() == 0 {
        (s, Seq::empty())
    } else {
        let (next, verdict) = rectangle_step(s, samples[0].0, samples[0].1);
        let (last, verdicts) = run_samples(next, samples.drop_first());
        (last, seq![verdict] + verdicts)
    }
}

/// The cell the pointer stands in once `k` cells of the walk are visited.
pub open spec fn cell_before(grid: Grid, k: int) -> GridCell {
    if k == 0 {
        (0u8, 0u8)
    } else {
        perimeter_walk(grid)[k - 1]
    }
}

/// Samples that all stay in the last cell visited each earn
/// `PatternProgressing`, however many there are, and leave the state, the
/// queue of cells to visit included, as it was.
pub proof fn lemma_lingering_keeps_state(s: RectangleState, samples: Seq<(int, int)>)
    requires
        rectangle_valid(s),
        forall|i: int|
            0 <= i < samples.len() ==> s.grid.contains_spec(
                s.last_visited,
                (#[trigger] samples[i]).0,
                samples[i].1,
            ),
    ensures
        run_samples(s, samples).0 == s,
        run_samples(s, samples).1 =~= Seq::new(
            samples.len(),
            |i: int| PatternStatus::PatternProgressing,
        ),
    decreases samples.len(),
{
    if samples.len() > 0 {
        let rest = samples.drop_first();
        assert forall|i: int| 0 <= i < rest.len() implies s.grid.contains_spec(
            s.last_visited,
            (#[trigger] rest[i]).0,
            rest[i].1,
        ) by {
            assert(rest[i] == samples[i + 1]);
        }
        lemma_lingering_keeps_state(s, rest);
    }
}

/// From the state where `k` cells of the walk are visited, samples that land,
/// one by one, in each remaining cell of the walk and outside the cell
/// before it earn `PatternProgressing` each, but for the last, on the start
/// node, which earns `PatternFinished`.
pub proof fn lemma_walk_from(s: RectangleState, k: int, samples: Seq<(int, int)>)
    requires
        rectangle_valid(s),
        walked(s, k),
        samples.len() == perimeter_walk(s.grid).len() - k,
        forall|i: int|
            0 <= i < samples.len() ==> {
                &&& s.grid.contains_spec(
                    perimeter_walk(s.grid)[k + i],
                    (#[trigger] samples[i]).0,
                    samples[i].1,
                )
                &&& !s.grid.contains_spec(cell_before(s.grid, k + i), samples[i].0, samples[i].1)
            },
    ensures
        run_samples(s, samples).1 =~= Seq::new(
            samples.len(),
            |i: int|
                if k + i == perimeter_walk(s.grid).len() - 1 {
                    PatternStatus::PatternFinished
                } else {
                    PatternStatus::PatternProgressing
                },
        ),
    decreases samples.len(),
{
    let walk = perimeter_walk(s.grid);
    lemma_walk_shape(s.grid);
    if samples.len() > 0 {
        let (x, y) = samples[0];
        assert(s.to_visit[0] == walk[k]);
        let next = rectangle_step(s, x, y).0;
        assert(walk.skip(k + 1) =~= walk.skip(k).drop_first());
        assert(walked(next, k + 1));
        let rest = samples.drop_first();
        assert forall|i: int| 0 <= i < rest.len() implies {
            &&& next.grid.contains_spec(walk[k + 1 + i], (#[trigger] rest[i]).0, rest[i].1)
            &&& !next.grid.contains_spec(cell_before(next.grid, k + 1 + i), rest[i].0, rest[i].1)
        } by {
            assert(rest[i] == samples[i + 1]);
            assert(k + 1 + i == k + (i + 1));
        }
        lemma_walk_from(next, k + 1, rest);
    }
}

/// Tracing the whole walk in order from a fresh attempt, each sample in the
/// next cell and outside the one before it, earns exactly one
/// `PatternFinished`: on the last sample, back on the start node, after
/// `2 * (nh - 1) + 2 * (nv - 1) - 1` verdicts `PatternProgressing`.
pub proof fn lemma_full_walk_completes(grid: Grid, samples: Seq<(int, int)>)
    requires
        grid.n_horizontal >= 2,
        grid.n_vertical >= 2,
        samples.len() == walk_len(grid),
        forall|i: int|
            0 <= i < samples.len() ==> {
                &&& grid.contains_spec(perimeter_walk(grid)[i], (#[trigger] samples[i]).0, samples[i].1)
                &&& !grid.contains_spec(cell_before(grid, i), samples[i].0, samples[i].1)
            },
    ensures
        run_samples(initial_state(grid), samples).1 =~= Seq::new(
            samples.len(),
            |i: int|
                if i == walk_len(grid) - 1 {
                    PatternStatus::PatternFinished
                } else {
                    PatternStatus::PatternProgressing
                },
        ),
{
    let s = initial_state(grid);
    lemma_walk_shape(grid);
    assert(s.to_visit =~= perimeter_walk(grid).skip(0));
    assert(walked(s, 0));
    assert forall|i: int| 0 <= i < samples.len() implies {
        &&& s.grid.contains_spec(perimeter_walk(s.grid)[0 + i], (#[trigger] samples[i]).0, samples[i].1)
        &&& !s.grid.contains_spec(cell_before(s.grid, 0 + i), samples[i].0, samples[i].1)
    } by {
        assert(0 + i == i);
    }
    lemma_walk_from(s, 0, samples);
}

/// A sample in neither the last cell visited nor the next cell to visit is a
/// wrong move, wherever the attempt stands, and changes nothing.
pub proof fn lemma_wrong_move(s: RectangleState, x: int, y: int)
    requires
        rectangle_valid(s),
        !s.grid.contains_spec(s.last_visited, x, y),
        s.to_visit.len() == 0 || !s.grid.contains_spec(s.to_visit[0], x, y),
    ensures
        rectangle_step(s, x, y) == (s, PatternStatus::WrongPattern),
{
}

/// Resetting, after any verdict, puts the attempt back on the start node with
/// the whole walk ahead, in its order; resetting again changes nothing.
pub proof fn lemma_reset_restores(s: RectangleState)
    requires
        rectangle_valid(s),
    ensures
        <RectanglePattern as Pattern>::restart(s).last_visited == s.start_node,
        <RectanglePattern as Pattern>::restart(s).to_visit == perimeter_walk(s.grid),
        <RectanglePattern as Pattern>::restart(s).grid == s.grid,
        <RectanglePattern as Pattern>::restart(<RectanglePattern as Pattern>::restart(s))
            == <RectanglePattern as Pattern>::restart(s),
{
}

/// What a sampling step tells the loop that drives it.
#[derive(Clone, Copy, Debug, PartialEq, Eq, Structural)]
pub enum SampleOutcome {
    /// Sample again after the cadence interval.
    KeepSampling,
    /// The attempt failed; the pattern is reset.
    NoMatch,
    /// The pattern was traced; the pattern is reset.
    Match,
}

/// One step of the sampling loop. A missing sample (the platform could not
/// report the pointer) changes nothing. A sample goes to the pattern; a wrong
/// move or a finished pattern resets it and ends the attempt.
pub open spec fn sampling_step<T: Pattern>(v: T::V, sample: Option<(i32, i32)>) -> (
    T::V,
    SampleOutcome,
) {
    match sample {
        None => (v, SampleOutcome::KeepSampling),
        Some(p) => {
            let (next, verdict) = T::sample(v, p.0 as int, p.1 as int);
            match verdict {
                PatternStatus::WrongPattern => (T::restart(next), SampleOutcome::NoMatch),
                PatternStatus::PatternFinished => (T::restart(next), SampleOutcome::Match),
                PatternStatus::PatternProgressing => (next, SampleOutcome::KeepSampling),
            }
        },
    }
}

/// Drives a pattern with pointer samples until it reaches a verdict.
pub struct PatternRecognition<T: Pattern> {
    pattern: T,
}

impl<T: Pattern> View for PatternRecognition<T> {
    type V = T::V;

    closed spec fn view(&self) -> T::V {
        self.pattern@
    }
}

impl<T: Pattern> PatternRecognition<T> {
    pub fn new(pattern: T) -> (r: PatternRecognition<T>)
        ensures
            r@ == pattern@,
    {
        PatternRecognition { pattern }
    }

    /// Feeds one pointer sample, or its absence, to the pattern.
    pub fn process_sample(&mut self, sample: Option<(i32, i32)>) -> (r: SampleOutcome)
        requires
            T::valid(old(self)@),
        ensures
            T::valid(final(self)@),
            (final(self)@, r) == sampling_step::<T>(old(self)@, sample),
    {
        match sample {
            None => SampleOutcome::KeepSampling,
            Some((x, y)) => match self.pattern.check_position(x, y) {
                PatternStatus::WrongPattern => {
                    self.pattern.reset_visited();
                    SampleOutcome::NoMatch
                },
                PatternStatus::PatternFinished => {
                    self.pattern.reset_visited();
                    SampleOutcome::Match
                },
                PatternStatus::PatternProgressing => SampleOutcome::KeepSampling,
            },
        }
    }
}

impl PatternRecognition<RectanglePattern> {
    /// A recognizer of the rectangle pattern over a display of the given size.
    pub fn new_rectangle_pattern(display_height: u32, display_width: u32) -> (r:
        PatternRecognition<RectanglePattern>)
        ensures
            rectangle_valid(r@),
            r@ == initial_state(rectangle_grid(display_height, display_width)),
    {
        PatternRecognition { pattern: RectanglePattern::new(display_height, display_width) }
    }
}

} // verus!
