//! The controlled avatar and its physics: gravity integration and the flap
//! impulse.  Speed is kept in thousandths of a row per frame unit, so the
//! integration is exact integer arithmetic.

use vstd::prelude::*;
use crate::draw::{Cell, Glyph};
use crate::{GRAVITY_MILLI, INITIAL_SPEED_MILLI, TIME_DIVISOR_MS};

verus! {

/// The controlled avatar: a fixed column, a mutable row, and a downward
/// vertical speed in thousandths of a row per frame unit.
#[derive(Clone, Copy, Debug, PartialEq, Eq, Structural)]
pub struct Player {
    pub x: i32,
    pub y: i32,
    pub speed_milli: u64,
}

/// The fall speed after gravity has acted for `ms` milliseconds on speed
/// `speed` (in thousandths of a row per frame unit): with t = ms / 80 frame
/// units, the speed grows by 0.3 * t rows per frame unit, that is by
/// 300 * ms / 80 thousandths, truncated; held at the top of `u64`.
pub open spec fn speed_after(speed: int, ms: int) -> int {
    let grown = speed + (GRAVITY_MILLI as int) * ms / (TIME_DIVISOR_MS as int);
    if grown > u64::MAX { u64::MAX as int } else { grown }
}

/// The rows fallen in `ms` milliseconds from speed `speed` (thousandths of a
/// row per frame unit): the truncated value of speed * t + 0.5 * 0.3 * t * t
/// rows with t = ms / 80 frame units.  Over the common denominator
/// 2 * 1000 * 80 * 80 = 12_800_000 the numerator is 160 * speed * ms +
/// 300 * ms * ms.
pub open spec fn fall_delta(speed: int, ms: int) -> int {
    (2 * (TIME_DIVISOR_MS as int) * speed * ms + (GRAVITY_MILLI as int) * ms * ms) / (2 * 1000
        * (TIME_DIVISOR_MS as int) * (TIME_DIVISOR_MS as int))
}

/// The row after gravity: the fall is added, then the row is clamped to the
/// top boundary 0; it is held at the top of `i32`.
pub open spec fn row_after(y: int, speed: int, ms: int) -> int {
    let fallen = y + fall_delta(speed, ms);
    if fallen < 0 {
        0
    } else if fallen > i32::MAX {
        i32::MAX as int
    } else {
        fallen
    }
}

/// The whole player one gravity step later.
pub open spec fn after_gravity(p: Player, ms: int) -> Player {
    Player {
        x: p.x,
        y: row_after(p.y as int, p.speed_milli as int, ms) as i32,
        speed_milli: speed_after(p.speed_milli as int, ms) as u64,
    }
}

/// The whole player one flap later.
pub open spec fn flapped(p: Player) -> Player {
    Player { x: p.x, y: (p.y - 2) as i32, speed_milli: INITIAL_SPEED_MILLI }
}

/// The player's cell on the play field.
pub open spec fn player_cell(p: Player) -> Cell {
    Cell { x: p.x, y: p.y, glyph: Glyph::Avatar }
}

impl Player {
    /// A player's speed never drops below the speed a flap imparts: flaps
    /// reset to it and gravity only adds to it.
    pub open spec fn wf(self) -> bool {
        self.speed_milli >= INITIAL_SPEED_MILLI
    }

    pub fn new(x: i32, y: i32) -> (p: Player)
        ensures
            p.x == x,
            p.y == y,
            p.speed_milli == INITIAL_SPEED_MILLI,
            p.wf(),
    {
        Player { x, y, speed_milli: INITIAL_SPEED_MILLI }
    }

    /// An instantaneous upward impulse: the row jumps up by exactly two and
    /// the accumulated fall speed is cancelled back to the initial speed.
    pub fn flap(&mut self)
        requires
            old(self).y >= i32::MIN + 2,
        ensures
            final(self).x == old(self).x,
            final(self).y == old(self).y - 2,
            final(self).speed_milli == INITIAL_SPEED_MILLI,
            *final(self) == flapped(*old(self)),
            final(self).wf(),
    {
        self.y = self.y - 2;
        self.speed_milli = INITIAL_SPEED_MILLI;
    }

    /// One gravity step for this frame's elapsed time: the player falls by
    /// the kinematic displacement, the row is clamped to stay at or below
    /// the top boundary (never above it), and the fall speed grows.
    pub fn gravity(&mut self, elapsed_ms: u32)
        ensures
            *final(self) == after_gravity(*old(self), elapsed_ms as int),
            final(self).x == old(self).x,
            final(self).y >= 0,
            old(self).wf() ==> final(self).wf(),
    {
        let s: u128 = self.speed_milli as u128;
        let m: u128 = elapsed_ms as u128;
        proof {
            assert(160 * s * m <= 160 * 0xffff_ffff_ffff_ffffu128 * 0xffff_ffffu128)
                by (nonlinear_arith)
                requires
                    s <= 0xffff_ffff_ffff_ffffu128,
                    m <= 0xffff_ffffu128,
            ;
            assert(300 * m * m <= 300 * 0xffff_ffffu128 * 0xffff_ffffu128) by (nonlinear_arith)
                requires
                    m <= 0xffff_ffffu128,
            ;
        }
        let num: u128 = 160 * s * m + 300 * m * m;
        let delta: u128 = num / 12_800_000;
        proof {
            assert(delta <= num);
        }
        let fallen: i128 = (self.y as i128) + (delta as i128);
        let new_y: i32 = if fallen < 0 {
            0
        } else if fallen > (i32::MAX as i128) {
            i32::MAX
        } else {
            fallen as i32
        };
        let grown: u128 = s + 300 * m / 80;
        let new_speed: u64 = if grown > (u64::MAX as u128) {
            u64::MAX
        } else {
            grown as u64
        };
        self.y = new_y;
        self.speed_milli = new_speed;
    }

    /// The draw command for the avatar.
    pub fn render_cell(&self) -> (c: Cell)
        ensures
            c == player_cell(*self),
    {
        Cell { x: self.x, y: self.y, glyph: Glyph::Avatar }
    }
}

} // verus!
