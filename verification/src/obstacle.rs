//! A scrolling gap obstacle: a full-height wall column with a passable band,
//! spawned at the right edge with a randomly placed gap that shrinks as the
//! score grows, scrolled left one column per scroll step.

use vstd::prelude::*;
use crate::draw::{Cell, Glyph};
use crate::player::Player;
use crate::{GAP_CENTER_LOW, GAP_CENTER_HIGH, GAP_FLOOR_SIZE, GAP_FULL_SIZE};

verus! {

/// A gap barrier: its column, the row at the center of its gap, and the
/// height of the gap.
#[derive(Clone, Copy, Debug, PartialEq, Eq, Structural)]
pub struct Obstacle {
    pub x: i32,
    pub gap_y: i32,
    pub size: i32,
}

/// The gap height a spawn gives at this score: the full height shrunk by one
/// row per point, floored at the minimum.
pub open spec fn spawn_size(score: int) -> int {
    if GAP_FULL_SIZE - score < GAP_FLOOR_SIZE {
        GAP_FLOOR_SIZE as int
    } else {
        GAP_FULL_SIZE - score
    }
}

/// What every freshly spawned obstacle satisfies at column `x` and score
/// `score`; only the gap row, drawn at random, is not pinned.
pub open spec fn spawned(o: Obstacle, x: int, score: int) -> bool {
    &&& o.x == x
    &&& o.size == spawn_size(score)
    &&& GAP_CENTER_LOW <= o.gap_y < GAP_CENTER_HIGH
}

/// The wall cells of one column `x` covering the rows `lo` inclusive to `hi`
/// exclusive (none when the range is empty).
pub open spec fn wall_column(x: i32, lo: int, hi: int) -> Seq<Cell> {
    Seq::new(
        if hi > lo {
            (hi - lo) as nat
        } else {
            0
        },
        |i: int| (Cell { x: x, y: (lo + i) as i32, glyph: Glyph::Wall }),
    )
}

/// Relies on bracket_lib's RandomNumberGenerator::range (a fresh generator,
/// seeded from the system, handed to rand's gen_range on min..max): the
/// result is at least `min` and strictly below `max`; an empty range would
/// panic, so it is excluded.
#[verifier::external_body]
fn random_in_range(min: i32, max: i32) -> (r: i32)
    requires
        min < max,
    ensures
        min <= r < max,
{
    let mut rng = bracket_lib::prelude::RandomNumberGenerator::new();
    rng.range(min, max)
}

impl Obstacle {
    /// The invariant of every obstacle the simulation holds: the gap height
    /// stays between the floor and the full spawn height, and the gap center
    /// keeps the row the spawn drew for it.
    pub open spec fn wf(self) -> bool {
        &&& GAP_FLOOR_SIZE <= self.size <= GAP_FULL_SIZE
        &&& GAP_CENTER_LOW <= self.gap_y < GAP_CENTER_HIGH
    }

    /// Builds the obstacle a spawn at column `x` and score `score` gives once
    /// the gap row has been drawn; deterministic, so callers that need a
    /// fixed geometry can pick the row themselves.
    pub fn with_gap(x: i32, gap_y: i32, score: u32) -> (o: Obstacle)
        requires
            GAP_CENTER_LOW <= gap_y < GAP_CENTER_HIGH,
        ensures
            o.x == x,
            o.gap_y == gap_y,
            o.size == spawn_size(score as int),
            spawned(o, x as int, score as int),
            o.wf(),
    {
        let size: i32 = if score >= 18 {
            GAP_FLOOR_SIZE
        } else {
            GAP_FULL_SIZE - score as i32
        };
        Obstacle { x, gap_y, size }
    }

    /// Spawns an obstacle at column `x` for score `score`: the gap height is
    /// the full height shrunk by one row per point and floored, and the gap
    /// center is drawn uniformly from the spawn band.
    pub fn new(x: i32, score: u32) -> (o: Obstacle)
        ensures
            spawned(o, x as int, score as int),
            o.wf(),
    {
        let gap_y = random_in_range(GAP_CENTER_LOW, GAP_CENTER_HIGH);
        Obstacle::with_gap(x, gap_y, score)
    }

    /// One scroll step: the obstacle advances one column to the left.
    pub fn move_left(&mut self)
        requires
            old(self).x > i32::MIN,
        ensures
            final(self).x == old(self).x - 1,
            final(self).gap_y == old(self).gap_y,
            final(self).size == old(self).size,
    {
        self.x = self.x - 1;
    }

    /// True exactly when the player stands in this obstacle's column and the
    /// player's row lies strictly outside the gap band
    /// [gap_y - size / 2, gap_y + size / 2].
    pub open spec fn hits(self, player: Player) -> bool {
        &&& player.x == self.x
        &&& (player.y < self.gap_y - self.size / 2 || player.y > self.gap_y + self.size / 2)
    }

    /// The collision test against the player.
    pub fn hit_obstacle(&self, player: &Player) -> (r: bool)
        requires
            self.wf(),
        ensures
            r == self.hits(*player),
    {
        let half_size = self.size / 2;
        let does_x_match = player.x == self.x;
        let player_above_gap = player.y < self.gap_y - half_size;
        let player_below_gap = player.y > self.gap_y + half_size;
        does_x_match && (player_above_gap || player_below_gap)
    }

    /// The wall cells this obstacle shows on a screen `screen_height` rows
    /// tall: the whole column except the gap band.
    pub open spec fn cells(self, screen_height: int) -> Seq<Cell> {
        wall_column(self.x, 0, self.gap_y - self.size / 2)
            + wall_column(self.x, self.gap_y + self.size / 2, screen_height)
    }

    /// The draw commands for this obstacle's column.
    pub fn render_cells(&self, screen_height: i32) -> (cells: Vec<Cell>)
        requires
            self.wf(),
        ensures
            cells@ == self.cells(screen_height as int),
    {
        let mut cells: Vec<Cell> = Vec::new();
        let half_size = self.size / 2;
        let top_end = self.gap_y - half_size;
        let mut y: i32 = 0;
        while y < top_end
            invariant
                self.wf(),
                half_size == self.size / 2,
                top_end == self.gap_y - half_size,
                0 <= y <= if top_end > 0 { top_end as int } else { 0 },
                cells@ == wall_column(self.x, 0, y as int),
            decreases top_end - y,
        {
            cells.push(Cell { x: self.x, y: y, glyph: Glyph::Wall });
            proof {
                assert(cells@ =~= wall_column(self.x, 0, y + 1));
            }
            y = y + 1;
        }
        proof {
            assert(cells@ =~= wall_column(self.x, 0, top_end as int));
        }
        let bottom_start = self.gap_y + half_size;
        let mut y2: i32 = bottom_start;
        while y2 < screen_height
            invariant
                self.wf(),
                half_size == self.size / 2,
                top_end == self.gap_y - half_size,
                bottom_start == self.gap_y + half_size,
                bottom_start <= y2,
                y2 <= if screen_height > bottom_start { screen_height as int } else { bottom_start as int },
                cells@ == wall_column(self.x, 0, top_end as int)
                    + wall_column(self.x, bottom_start as int, y2 as int),
            decreases screen_height - y2,
        {
            cells.push(Cell { x: self.x, y: y2, glyph: Glyph::Wall });
            proof {
                assert(cells@ =~= wall_column(self.x, 0, top_end as int)
                    + wall_column(self.x, bottom_start as int, y2 + 1));
            }
            y2 = y2 + 1;
        }
        proof {
            assert(cells@ =~= self.cells(screen_height as int));
        }
        cells
    }
}

} // verus!
