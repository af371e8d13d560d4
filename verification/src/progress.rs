//! Progressive trace scheduling: row-major batches of tiles, one submission in flight at a time.

use vstd::prelude::*;
use vstd::arithmetic::div_mod::{lemma_fundamental_div_mod, lemma_mod_bound};

use crate::extent::RenderExtent;
use crate::tiles::{RegionModel, TileRegion, finishes_grid, grid_of, lemma_row_major, tile_count, tile_grid};

verus! {

/// Tiles per batch before any timing feedback.
pub const INITIAL_TILES_PER_BATCH: u32 = 512;

pub open spec fn smaller(a: int, b: int) -> int {
    if a < b { a } else { b }
}

/// Timing feedback for a completed batch, reduced to what scheduling reads.
///
/// `Rescaled` carries the completed batch's tile count multiplied by the timing scale factor and
/// rounded; `Unusable` stands for a non-finite or non-positive measurement.
#[derive(Clone, Copy, Debug, PartialEq, Eq, Structural)]
pub enum BatchTiming {
    Unusable,
    Rescaled(u64),
}

/// Identifies the extent generation a trace submission was encoded for.
#[derive(Clone, Copy, Debug, PartialEq, Eq, Structural)]
pub struct TraceSubmission {
    generation: u64,
}

impl TraceSubmission {
    pub fn new(generation: u64) -> (submission: Self)
        ensures
            submission.generation() == generation,
    {
        TraceSubmission { generation }
    }

    pub closed spec fn generation(self) -> u64 {
        self.generation
    }

    pub fn submitted_generation(self) -> (generation: u64)
        ensures
            generation == self.generation(),
    {
        self.generation
    }
}

/// The state of a candidate trace after a submission completes.
#[derive(Clone, Copy, Debug, PartialEq, Eq, Structural)]
pub enum TraceCompletion {
    Stale,
    Pending,
    Ready,
}

/// The mathematical state of a [`TraceProgress`].
pub struct ProgressModel {
    pub grid_x: int,
    pub grid_y: int,
    pub total: int,
    pub next: int,
    pub tiles_per_batch: int,
    pub maximum_batch_tiles: int,
    pub maximum_dispatch_dimension: int,
    pub in_flight: Option<RegionModel>,
    pub completed_batches: int,
}

impl ProgressModel {
    pub open spec fn wf(self) -> bool {
        &&& self.grid_x >= 1
        &&& self.grid_y >= 1
        &&& self.total == self.grid_x * self.grid_y
        &&& self.total <= u32::MAX
        &&& self.maximum_dispatch_dimension >= 1
        &&& 1 <= self.tiles_per_batch <= self.maximum_batch_tiles
        &&& 0 <= self.next <= self.total
        &&& (self.in_flight matches Some(r) ==> 1 <= r.len() <= self.next)
        &&& 0 <= self.completed_batches
        &&& self.completed_batches + (if self.in_flight is Some { 1int } else { 0int }) <= self.next
    }

    /// The linear row-major index of a tile.
    pub open spec fn index(self, x: int, y: int) -> int {
        y * self.grid_x + x
    }

    /// The batch that [`TraceProgress::next_batch`] hands out: it starts at the next tile,
    /// spends at most the per-batch budget, stays within one row unless it covers whole rows,
    /// and keeps each dimension within the device dispatch limit.
    pub open spec fn planned_batch(self) -> RegionModel {
        let origin_x = self.next % self.grid_x;
        let origin_y = self.next / self.grid_x;
        let budget = smaller(self.tiles_per_batch, self.total - self.next);
        let columns = smaller(smaller(budget, self.grid_x - origin_x), self.maximum_dispatch_dimension);
        let rows = if origin_x == 0 && columns == self.grid_x && budget >= self.grid_x {
            smaller(smaller(budget / self.grid_x, self.grid_y - origin_y), self.maximum_dispatch_dimension)
        } else {
            1
        };
        RegionModel { origin_x, origin_y, columns, rows }
    }

    pub open spec fn has_next_batch(self) -> bool {
        self.in_flight is None && self.next < self.total
    }

    pub open spec fn is_complete(self) -> bool {
        self.next == self.total && self.in_flight is None
    }

    pub open spec fn completed_tiles(self) -> int {
        match self.in_flight {
            Some(r) => self.next - r.len(),
            None => self.next,
        }
    }

    /// The state after `batch` is submitted.
    pub open spec fn after_submit(self, batch: RegionModel) -> ProgressModel {
        ProgressModel { next: self.next + batch.len(), in_flight: Some(batch), ..self }
    }

    /// The state after the in-flight batch completes with the given timing feedback.
    pub open spec fn after_complete(self, timing: BatchTiming) -> ProgressModel {
        match self.in_flight {
            None => self,
            Some(batch) => {
                let tiles_per_batch = if self.next == self.total {
                    self.tiles_per_batch
                } else {
                    match timing {
                        BatchTiming::Unusable => self.tiles_per_batch,
                        BatchTiming::Rescaled(scaled) => {
                            let cap = smaller(self.total, self.maximum_batch_tiles);
                            if scaled < 1 { 1 } else if scaled > cap { cap } else { scaled as int }
                        },
                    }
                };
                ProgressModel {
                    in_flight: None,
                    completed_batches: self.completed_batches + 1,
                    tiles_per_batch,
                    ..self
                }
            },
        }
    }
}

/// The largest batch the dispatch limit admits: whole rows of at most `maximum_dimension` rows
/// when a row fits in one dispatch, otherwise `maximum_dimension` tiles of one row.
pub open spec fn maximum_batch_tiles_for(grid: (int, int), maximum_dimension: int) -> int {
    if grid.0 > maximum_dimension {
        maximum_dimension
    } else {
        grid.0 * smaller(grid.1, maximum_dimension)
    }
}

/// The planned batch is a valid region that covers exactly the tiles with linear indices
/// `next .. next + len`, and `len` stays within the batch budget.
proof fn lemma_planned_batch(m: ProgressModel)
    requires
        m.wf(),
        m.has_next_batch(),
    ensures
        ({
            let r = m.planned_batch();
            &&& 1 <= r.columns <= m.maximum_dispatch_dimension
            &&& 1 <= r.rows <= m.maximum_dispatch_dimension
            &&& 0 <= r.origin_x
            &&& 0 <= r.origin_y
            &&& r.origin_x + r.columns <= m.grid_x
            &&& r.origin_y + r.rows <= m.grid_y
            &&& m.index(r.origin_x, r.origin_y) == m.next
            &&& 1 <= r.len() <= smaller(m.tiles_per_batch, m.total - m.next)
            &&& (r.rows > 1 ==> r.origin_x == 0 && r.columns == m.grid_x)
            &&& forall|x: int, y: int|
                0 <= x < m.grid_x && 0 <= y < m.grid_y ==> (#[trigger] r.contains(x, y) <==> m.next
                    <= m.index(x, y) < m.next + r.len())
        }),
{
    let r = m.planned_batch();
    let gx = m.grid_x;
    let gy = m.grid_y;
    let budget = smaller(m.tiles_per_batch, m.total - m.next);
    lemma_fundamental_div_mod(m.next, gx);
    lemma_mod_bound(m.next, gx);
    let ox = r.origin_x;
    let oy = r.origin_y;
    assert(m.next == oy * gx + ox) by (nonlinear_arith)
        requires
            m.next == gx * (m.next / gx) + (m.next % gx),
            ox == m.next % gx,
            oy == m.next / gx,
    ;
    assert(oy >= 0) by (nonlinear_arith)
        requires
            m.next == oy * gx + ox,
            0 <= ox < gx,
            m.next >= 0,
    ;
    assert(oy < gy) by {
        lemma_row_major(gx, ox, oy, gy);
        assert(m.total == gy * gx) by (nonlinear_arith)
            requires
                m.total == gx * gy,
        ;
    }
    assert(budget >= 1);
    if r.origin_x == 0 && r.columns == gx && budget >= gx {
        assert(budget / gx >= 1) by (nonlinear_arith)
            requires
                budget >= gx,
                gx > 0,
        ;
    }
    assert(r.rows >= 1);
    if r.rows > 1 {
        assert(budget >= gx);
        assert(r.columns == gx);
        assert(gx * (budget / gx) <= budget) by {
            lemma_fundamental_div_mod(budget, gx);
            lemma_mod_bound(budget, gx);
        }
        assert(r.len() <= budget) by (nonlinear_arith)
            requires
                r.len() == r.columns * r.rows,
                r.columns == gx,
                r.rows <= budget / gx,
                gx * (budget / gx) <= budget,
                gx > 0,
        ;
        assert(r.len() >= 1) by (nonlinear_arith)
            requires
                r.len() == r.columns * r.rows,
                r.columns >= 1,
                r.rows >= 1,
        ;
        assert(budget / gx >= 1) by (nonlinear_arith)
            requires
                budget >= gx,
                gx > 0,
        ;
        assert forall|x: int, y: int| 0 <= x < gx && 0 <= y < gy implies (#[trigger] r.contains(x, y)
            <==> m.next <= m.index(x, y) < m.next + r.len()) by {
            lemma_row_major(gx, x, y, oy);
            lemma_row_major(gx, x, y, oy + r.rows);
            assert((oy + r.rows) * gx == oy * gx + r.len()) by (nonlinear_arith)
                requires
                    r.len() == r.columns * r.rows,
                    r.columns == gx,
            ;
        }
    } else {
        assert(r.len() == r.columns) by (nonlinear_arith)
            requires
                r.len() == r.columns * r.rows,
                r.rows == 1,
        ;
        assert forall|x: int, y: int| 0 <= x < gx && 0 <= y < gy implies (#[trigger] r.contains(x, y)
            <==> m.next <= m.index(x, y) < m.next + r.len()) by {
            lemma_row_major(gx, x, y, oy);
            lemma_row_major(gx, x, y, oy + 1);
            if y == oy {
            } else if y < oy {
                assert(y * gx + x < oy * gx);
            } else {
                assert(y * gx + x >= (oy + 1) * gx);
                assert((oy + 1) * gx == oy * gx + gx) by (nonlinear_arith);
            }
        }
    }
}

/// Schedules the tiles of one candidate trace in row-major batches.
#[derive(Debug)]
pub struct TraceProgress {
    grid_x: u32,
    grid_y: u32,
    total_tiles: u32,
    next_tile: u32,
    tiles_per_batch: u32,
    maximum_batch_tiles: u32,
    maximum_dispatch_dimension: u32,
    in_flight: Option<TileRegion>,
    completed_batches: u32,
}

impl View for TraceProgress {
    type V = ProgressModel;

    closed spec fn view(&self) -> ProgressModel {
        ProgressModel {
            grid_x: self.grid_x as int,
            grid_y: self.grid_y as int,
            total: self.total_tiles as int,
            next: self.next_tile as int,
            tiles_per_batch: self.tiles_per_batch as int,
            maximum_batch_tiles: self.maximum_batch_tiles as int,
            maximum_dispatch_dimension: self.maximum_dispatch_dimension as int,
            in_flight: match self.in_flight {
                Some(r) => Some(r@),
                None => None,
            },
            completed_batches: self.completed_batches as int,
        }
    }
}

impl TraceProgress {
    /// A fresh schedule for the extent under the device's per-dimension dispatch limit.
    pub fn new(extent: RenderExtent, maximum_dispatch_dimension: u32) -> (progress: Self)
        requires
            maximum_dispatch_dimension > 0,
            tile_count(extent@) <= u32::MAX,
        ensures
            progress@.wf(),
            progress@.grid_x == grid_of(extent@).0,
            progress@.grid_y == grid_of(extent@).1,
            progress@.total == tile_count(extent@),
            progress@.next == 0,
            progress@.in_flight is None,
            progress@.completed_batches == 0,
            progress@.maximum_dispatch_dimension == maximum_dispatch_dimension,
            progress@.maximum_batch_tiles == maximum_batch_tiles_for(
                grid_of(extent@),
                maximum_dispatch_dimension as int,
            ),
            progress@.tiles_per_batch == smaller(
                INITIAL_TILES_PER_BATCH as int,
                progress@.maximum_batch_tiles,
            ),
            progress@.tiles_per_batch == smaller(512, progress@.maximum_batch_tiles),
            1 <= progress@.maximum_batch_tiles <= progress@.total,
    {
        let grid = tile_grid(extent);
        let grid_x = grid[0];
        let grid_y = grid[1];
        proof {
            assert(grid_x * grid_y >= 1) by (nonlinear_arith)
                requires
                    grid_x >= 1,
                    grid_y >= 1,
            ;
        }
        proof {
            assert(grid_x <= grid_x * grid_y) by (nonlinear_arith)
                requires
                    grid_y >= 1,
                    grid_x >= 1,
            ;
        }
        let total_tiles = grid_x * grid_y;
        let rows = if grid_y < maximum_dispatch_dimension { grid_y } else { maximum_dispatch_dimension };
        let maximum_batch_tiles = if grid_x > maximum_dispatch_dimension {
            maximum_dispatch_dimension
        } else {
            proof {
                assert(grid_x * rows <= grid_x * grid_y) by (nonlinear_arith)
                    requires
                        rows <= grid_y,
                        grid_x >= 1,
                ;
                assert(grid_x * rows >= 1) by (nonlinear_arith)
                    requires
                        rows >= 1,
                        grid_x >= 1,
                ;
            }
            grid_x * rows
        };
        let tiles_per_batch = if INITIAL_TILES_PER_BATCH < maximum_batch_tiles {
            INITIAL_TILES_PER_BATCH
        } else {
            maximum_batch_tiles
        };
        TraceProgress {
            grid_x,
            grid_y,
            total_tiles,
            next_tile: 0,
            tiles_per_batch,
            maximum_batch_tiles,
            maximum_dispatch_dimension,
            in_flight: None,
            completed_batches: 0,
        }
    }

    /// The next batch to submit, or `None` while a batch is in flight or once every tile has
    /// been submitted.
    pub fn next_batch(&self) -> (batch: Option<TileRegion>)
        requires
            self@.wf(),
        ensures
            batch is Some <==> self@.has_next_batch(),
            batch matches Some(b) ==> b@ == self@.planned_batch(),
    {
        if self.in_flight.is_some() || self.next_tile == self.total_tiles {
            return None;
        }
        proof {
            lemma_planned_batch(self@);
        }
        let ghost plan = self@.planned_batch();
        let tile_x = self.next_tile % self.grid_x;
        let tile_y = self.next_tile / self.grid_x;
        let remaining_tiles = self.total_tiles - self.next_tile;
        let budget = if self.tiles_per_batch < remaining_tiles { self.tiles_per_batch } else { remaining_tiles };
        let remaining_columns = self.grid_x - tile_x;
        let bounded = if budget < remaining_columns { budget } else { remaining_columns };
        let workgroups_x = if bounded < self.maximum_dispatch_dimension {
            bounded
        } else {
            self.maximum_dispatch_dimension
        };
        let workgroups_y = if tile_x == 0 && workgroups_x == self.grid_x && budget >= self.grid_x {
            let full_rows = budget / self.grid_x;
            let remaining_rows = self.grid_y - tile_y;
            let rows = if full_rows < remaining_rows { full_rows } else { remaining_rows };
            if rows < self.maximum_dispatch_dimension { rows } else { self.maximum_dispatch_dimension }
        } else {
            1
        };
        proof {
            assert(workgroups_x == plan.columns);
            assert(workgroups_y == plan.rows);
        }
        Some(TileRegion::new([tile_x, tile_y], [workgroups_x, workgroups_y]))
    }

    /// Records that `batch`, which starts at the next tile, was submitted.
    pub fn submitted(&mut self, batch: TileRegion)
        requires
            old(self)@.wf(),
            old(self)@.in_flight is None,
            old(self)@.index(batch@.origin_x, batch@.origin_y) == old(self)@.next,
            old(self)@.next + batch@.len() <= old(self)@.total,
        ensures
            final(self)@ == old(self)@.after_submit(batch@),
            final(self)@.wf(),
    {
        let len = batch.len();
        assert(self.next_tile + len <= self.total_tiles);
        self.next_tile = self.next_tile + len;
        self.in_flight = Some(batch);
    }

    /// Retires the in-flight batch and adapts the batch size to its measured cost.
    pub fn completed(&mut self, timing: BatchTiming)
        requires
            old(self)@.wf(),
        ensures
            final(self)@ == old(self)@.after_complete(timing),
            final(self)@.wf(),
    {
        let batch = match self.in_flight {
            Some(batch) => batch,
            None => return,
        };
        self.in_flight = None;
        self.completed_batches = self.completed_batches + 1;
        if self.next_tile == self.total_tiles {
            return;
        }
        match timing {
            BatchTiming::Unusable => {},
            BatchTiming::Rescaled(scaled) => {
                let cap = if self.total_tiles < self.maximum_batch_tiles {
                    self.total_tiles
                } else {
                    self.maximum_batch_tiles
                };
                self.tiles_per_batch = if scaled < 1 {
                    1
                } else if scaled > cap as u64 {
                    cap
                } else {
                    scaled as u32
                };
            },
        }
    }

    /// Completes a submission: a submission of another generation is stale and changes nothing;
    /// otherwise the in-flight batch is retired and the trace is ready once every tile is done.
    pub fn complete_submission(
        &mut self,
        submission: TraceSubmission,
        current_generation: u64,
        timing: BatchTiming,
    ) -> (completion: TraceCompletion)
        requires
            old(self)@.wf(),
        ensures
            final(self)@.wf(),
            submission.generation() != current_generation ==> completion == TraceCompletion::Stale
                && final(self)@ == old(self)@,
            submission.generation() == current_generation ==> {
                &&& final(self)@ == old(self)@.after_complete(timing)
                &&& completion == (if final(self)@.is_complete() {
                    TraceCompletion::Ready
                } else {
                    TraceCompletion::Pending
                })
            },
    {
        if submission.generation != current_generation {
            return TraceCompletion::Stale;
        }
        self.completed(timing);
        if self.is_complete() {
            TraceCompletion::Ready
        } else {
            TraceCompletion::Pending
        }
    }

    pub fn is_complete(&self) -> (complete: bool)
        ensures
            complete == self@.is_complete(),
    {
        self.next_tile == self.total_tiles && self.in_flight.is_none()
    }

    /// The tile count of the in-flight batch, if any.
    pub fn in_flight_len(&self) -> (len: Option<u32>)
        requires
            self@.wf(),
        ensures
            len matches Some(l) ==> self@.in_flight matches Some(r) && l == r.len(),
            len is None <==> self@.in_flight is None,
    {
        match self.in_flight {
            Some(batch) => Some(batch.len()),
            None => None,
        }
    }

    /// Completed tiles, total tiles and completed batches.
    pub fn diagnostics(&self) -> (counts: (u32, u32, u32))
        requires
            self@.wf(),
        ensures
            counts.0 == self@.completed_tiles(),
            counts.1 == self@.total,
            counts.2 == self@.completed_batches,
    {
        let completed_tiles = match self.in_flight {
            Some(batch) => self.next_tile - batch.len(),
            None => self.next_tile,
        };
        (completed_tiles, self.total_tiles, self.completed_batches)
    }
}

/// Each planned batch is a nonempty region inside the grid and within the dispatch limit, and
/// it covers exactly the tiles whose row-major indices run from the next tile for `len` tiles;
/// submitting it moves the next tile past exactly those tiles, and no other batch is handed
/// out while it is in flight.
pub proof fn law_batch_covers_the_next_tiles(m: ProgressModel)
    requires
        m.wf(),
        m.has_next_batch(),
    ensures
        ({
            let r = m.planned_batch();
            &&& 1 <= r.columns <= m.maximum_dispatch_dimension
            &&& 1 <= r.rows <= m.maximum_dispatch_dimension
            &&& 0 <= r.origin_x && r.origin_x + r.columns <= m.grid_x
            &&& 0 <= r.origin_y && r.origin_y + r.rows <= m.grid_y
            &&& 1 <= r.len() <= m.total - m.next
            &&& m.index(r.origin_x, r.origin_y) == m.next
            &&& m.after_submit(r).wf()
            &&& m.after_submit(r).next == m.next + r.len()
            &&& !m.after_submit(r).has_next_batch()
            &&& forall|x: int, y: int|
                0 <= x < m.grid_x && 0 <= y < m.grid_y ==> (#[trigger] r.contains(x, y) <==> m.next
                    <= m.index(x, y) < m.next + r.len())
        }),
{
    lemma_planned_batch(m);
}


/// The batches handed out when the schedule runs from `m`, each completing with the next
/// timing feedback, until the timings run out or no batch remains.
pub open spec fn schedule(m: ProgressModel, timings: Seq<BatchTiming>) -> Seq<RegionModel>
    decreases timings.len(),
{
    if timings.len() == 0 || !m.has_next_batch() {
        Seq::empty()
    } else {
        let r = m.planned_batch();
        seq![r] + schedule(m.after_submit(r).after_complete(timings[0]), timings.drop_first())
    }
}

/// The state reached by that run.
pub open spec fn schedule_end(m: ProgressModel, timings: Seq<BatchTiming>) -> ProgressModel
    decreases timings.len(),
{
    if timings.len() == 0 || !m.has_next_batch() {
        m
    } else {
        let r = m.planned_batch();
        schedule_end(m.after_submit(r).after_complete(timings[0]), timings.drop_first())
    }
}

/// How many batches of that run contain tile `(x, y)`.
pub open spec fn times_covered(m: ProgressModel, timings: Seq<BatchTiming>, x: int, y: int) -> int
    decreases timings.len(),
{
    if timings.len() == 0 || !m.has_next_batch() {
        0
    } else {
        let r = m.planned_batch();
        (if r.contains(x, y) { 1int } else { 0int }) + times_covered(
            m.after_submit(r).after_complete(timings[0]),
            timings.drop_first(),
            x,
            y,
        )
    }
}

/// Running the schedule covers every tile from the next one up to where the run stops exactly
/// once and no other tile; each batch advances the schedule, so a run with at least as many
/// completions as remaining tiles submits every tile and leaves the trace complete.
pub proof fn law_schedule_covers_each_tile_once(m: ProgressModel, timings: Seq<BatchTiming>)
    requires
        m.wf(),
        m.in_flight is None,
    ensures
        ({
            let end = schedule_end(m, timings);
            &&& end.wf()
            &&& end.in_flight is None
            &&& m.next <= end.next <= m.total
            &&& end.next >= smaller(m.next + timings.len(), m.total)
            &&& (timings.len() >= m.total - m.next ==> end.is_complete())
            &&& forall|x: int, y: int|
                0 <= x < m.grid_x && 0 <= y < m.grid_y ==> #[trigger] times_covered(m, timings, x, y)
                    == if m.next <= m.index(x, y) < end.next { 1int } else { 0int }
        }),
    decreases timings.len(),
{
    if timings.len() == 0 || !m.has_next_batch() {
    } else {
        let r = m.planned_batch();
        lemma_planned_batch(m);
        let m2 = m.after_submit(r).after_complete(timings[0]);
        assert(m.after_submit(r).wf());
        assert(m2.wf());
        assert(m2.grid_x == m.grid_x && m2.grid_y == m.grid_y && m2.total == m.total);
        law_schedule_covers_each_tile_once(m2, timings.drop_first());
        let end = schedule_end(m, timings);
        assert(end == schedule_end(m2, timings.drop_first()));
        assert forall|x: int, y: int| 0 <= x < m.grid_x && 0 <= y < m.grid_y implies #[trigger] times_covered(
            m,
            timings,
            x,
            y,
        ) == if m.next <= m.index(x, y) < end.next { 1int } else { 0int } by {
            assert(r.contains(x, y) <==> m.next <= m.index(x, y) < m.next + r.len());
            assert(times_covered(m, timings, x, y) == (if r.contains(x, y) { 1int } else { 0int })
                + times_covered(m2, timings.drop_first(), x, y));
            assert(times_covered(m2, timings.drop_first(), x, y) == if m2.next <= m2.index(x, y) < end.next {
                1int
            } else {
                0int
            });
        }
    }
}

/// Tiles in a sequence of batches.
pub open spec fn tiles_in(batches: Seq<RegionModel>) -> int
    decreases batches.len(),
{
    if batches.len() == 0 {
        0
    } else {
        batches[0].len() + tiles_in(batches.drop_first())
    }
}

/// Every batch of a run lies inside the grid with each side between one workgroup and the
/// dispatch limit, and starts at the row-major index just past the tiles of the batches before
/// it; the run ends with the next tile past all of them.
pub proof fn law_schedule_batches_follow_each_other(m: ProgressModel, timings: Seq<BatchTiming>)
    requires
        m.wf(),
        m.in_flight is None,
    ensures
        ({
            let batches = schedule(m, timings);
            &&& schedule_end(m, timings).next == m.next + tiles_in(batches)
            &&& forall|i: int|
                0 <= i < batches.len() ==> {
                    let r = #[trigger] batches[i];
                    &&& 1 <= r.columns <= m.maximum_dispatch_dimension
                    &&& 1 <= r.rows <= m.maximum_dispatch_dimension
                    &&& 0 <= r.origin_x && r.origin_x + r.columns <= m.grid_x
                    &&& 0 <= r.origin_y && r.origin_y + r.rows <= m.grid_y
                    &&& m.index(r.origin_x, r.origin_y) == m.next + tiles_in(batches.take(i))
                }
        }),
    decreases timings.len(),
{
    if timings.len() == 0 || !m.has_next_batch() {
    } else {
        let r = m.planned_batch();
        lemma_planned_batch(m);
        let m2 = m.after_submit(r).after_complete(timings[0]);
        assert(m.after_submit(r).wf());
        law_schedule_batches_follow_each_other(m2, timings.drop_first());
        let rest = schedule(m2, timings.drop_first());
        let batches = schedule(m, timings);
        assert(batches == seq![r] + rest);
        assert(batches.drop_first() =~= rest);
        assert forall|i: int| 0 <= i < batches.len() implies {
            let b = #[trigger] batches[i];
            &&& 1 <= b.columns <= m.maximum_dispatch_dimension
            &&& 1 <= b.rows <= m.maximum_dispatch_dimension
            &&& 0 <= b.origin_x && b.origin_x + b.columns <= m.grid_x
            &&& 0 <= b.origin_y && b.origin_y + b.rows <= m.grid_y
            &&& m.index(b.origin_x, b.origin_y) == m.next + tiles_in(batches.take(i))
        } by {
            if i == 0 {
                assert(batches.take(0).len() == 0);
            } else {
                assert(batches[i] == rest[i - 1]);
                assert(batches.take(i).drop_first() =~= rest.take(i - 1));
                assert(batches.take(i)[0] == r);
            }
        }
    }
}

/// A planned batch finishes the grid exactly when it ends at the last tile of the trace.
pub proof fn law_finishing_batch_is_last(m: ProgressModel)
    requires
        m.wf(),
        m.has_next_batch(),
    ensures
        finishes_grid(m.planned_batch(), (m.grid_x, m.grid_y)) <==> m.next + m.planned_batch().len()
            == m.total,
{
    lemma_planned_batch(m);
    let r = m.planned_batch();
    let gx = m.grid_x;
    let gy = m.grid_y;
    assert(m.total == gy * gx) by (nonlinear_arith)
        requires
            m.total == gx * gy,
    ;
    if r.rows > 1 {
        assert((r.origin_y + r.rows) * gx == m.next + r.len()) by (nonlinear_arith)
            requires
                m.next == r.origin_y * gx + r.origin_x,
                r.origin_x == 0,
                r.len() == r.columns * r.rows,
                r.columns == gx,
        ;
        if r.origin_y + r.rows != gy {
            assert((r.origin_y + r.rows) * gx != gy * gx) by (nonlinear_arith)
                requires
                    r.origin_y + r.rows != gy,
                    gx > 0,
            ;
        }
    } else {
        assert(r.len() == r.columns) by (nonlinear_arith)
            requires
                r.len() == r.columns * r.rows,
                r.rows == 1,
        ;
        let last = r.origin_x + r.columns - 1;
        lemma_row_major(gx, last, r.origin_y, gy);
        lemma_row_major(gx, last, r.origin_y, r.origin_y + 1);
        assert((r.origin_y + 1) * gx == r.origin_y * gx + gx) by (nonlinear_arith);
        if m.next + r.len() == m.total {
            if r.origin_y + 1 < gy {
                assert((r.origin_y + 1) * gx <= gy * gx - gx) by (nonlinear_arith)
                    requires
                        r.origin_y + 1 < gy,
                        gx > 0,
                ;
            }
        }
    }
}


/// Timing feedback sets the batch size while tiles remain: the completed batch's rescaled tile
/// count, raised to one and capped at the smaller of the tile count and the largest batch. So
/// a batch that ran below target grows the next batch and one that ran above shrinks it. An
/// unusable measurement, or a completion with no tiles left, keeps the size; the completed
/// batch leaves the flight and is counted.
pub proof fn law_timing_feedback_sets_the_batch_size(m: ProgressModel, scaled: u64)
    requires
        m.wf(),
        m.in_flight is Some,
    ensures
        ({
            let cap = if m.total < m.maximum_batch_tiles { m.total } else { m.maximum_batch_tiles };
            let q = m.after_complete(BatchTiming::Rescaled(scaled));
            &&& q.in_flight is None
            &&& q.completed_batches == m.completed_batches + 1
            &&& q.next == m.next
            &&& q.wf()
            &&& m.next < m.total ==> {
                &&& 1 <= scaled <= cap ==> q.tiles_per_batch == scaled
                &&& scaled < 1 ==> q.tiles_per_batch == 1
                &&& scaled > cap ==> q.tiles_per_batch == cap
            }
            &&& m.next == m.total ==> q.tiles_per_batch == m.tiles_per_batch
            &&& m.after_complete(BatchTiming::Unusable).tiles_per_batch == m.tiles_per_batch
        }),
{
}

/// The batch handed out is as large as the budget, the row, the grid and the dispatch limit
/// allow: within one row it runs for the smallest of the budget, the rest of the row and the
/// limit; from the start of a row, with a budget of at least a row and a row within the limit,
/// it takes as many whole rows as the budget, the grid and the limit allow.
pub proof fn law_batch_is_as_large_as_allowed(m: ProgressModel)
    requires
        m.wf(),
        m.has_next_batch(),
    ensures
        ({
            let r = m.planned_batch();
            let budget = smaller(m.tiles_per_batch, m.total - m.next);
            let origin_x = m.next % m.grid_x;
            let origin_y = m.next / m.grid_x;
            &&& r.origin_x == origin_x && r.origin_y == origin_y
            &&& (origin_x == 0 && budget >= m.grid_x && m.grid_x <= m.maximum_dispatch_dimension) ==> {
                &&& r.columns == m.grid_x
                &&& r.rows == smaller(smaller(budget / m.grid_x, m.grid_y - origin_y), m.maximum_dispatch_dimension)
            }
            &&& !(origin_x == 0 && budget >= m.grid_x && m.grid_x <= m.maximum_dispatch_dimension) ==> {
                &&& r.rows == 1
                &&& r.columns == smaller(smaller(budget, m.grid_x - origin_x), m.maximum_dispatch_dimension)
            }
            &&& r.len() <= budget
        }),
{
    lemma_planned_batch(m);
}

} // verus!
