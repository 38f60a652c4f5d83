//! The falling box and its motion: it sweeps sideways by its speed on every
//! tick and turns round when it touches or passes a screen bound.

use vstd::prelude::*;

verus! {

/// Left bound of the screen.
pub const SCREEN_LEFT: i32 = 0;

/// Right bound of the screen.
pub const SCREEN_RIGHT: i32 = 128;

/// Left edge of the falling box when a game starts.
pub const START_X: i32 = 0;

/// Height at which the falling box sweeps.
pub const START_Y: i32 = 10;

/// Width of the falling box when a game starts.
pub const START_WIDTH: i32 = 64;

/// Distance that the falling box covers per tick when a game starts.
pub const START_SPEED: i32 = 1;

/// The greatest distance per tick for which a box near the screen can never
/// leave the range of its coordinates.
pub const MAX_STRIDE: i32 = 1_073_741_759;

/// The widest box and the greatest stride of a game at screen scale.
pub const PLAY_SCALE: i32 = 128;

/// The leftmost coordinate that a game at screen scale reaches.
pub const PLAY_LEFT: i32 = -128;

/// The greatest [`FallingBox::budget`] that a game at screen scale reaches.
pub const PLAY_BUDGET: i32 = 16512;

/// The box that is still moving. `x` is its left edge, `x + width` its right
/// edge; `speed` is the signed distance it covers per tick.
#[derive(Debug, Clone, Copy, PartialEq, Eq, Structural)]
pub struct FallingBox {
    pub x: i32,
    pub y: i32,
    pub width: i32,
    pub speed: i32,
}

/// Whether a box with left edge `x` touches or lies beyond a screen bound.
pub open spec fn at_bound(x: int, width: int) -> bool {
    x <= SCREEN_LEFT || x + width >= SCREEN_RIGHT
}

impl FallingBox {
    /// A falling box has a positive width and moves.
    pub open spec fn wf(self) -> bool {
        self.width > 0 && self.speed != 0
    }

    /// The box as a game starts with it.
    pub open spec fn start() -> FallingBox {
        FallingBox { x: START_X, y: START_Y, width: START_WIDTH, speed: START_SPEED }
    }

    /// The coordinate just past the right edge.
    pub open spec fn right(self) -> int {
        self.x + self.width
    }

    /// The distance covered per tick, without its direction.
    pub open spec fn stride(self) -> int {
        if self.speed < 0 {
            -self.speed
        } else {
            self.speed as int
        }
    }

    /// The left edge after one more tick.
    pub open spec fn next_x(self) -> int {
        self.x + self.speed
    }

    /// Whether the box turns round on the next tick.
    pub open spec fn turns(self) -> bool {
        at_bound(self.next_x(), self.width as int)
    }

    /// The next tick stays within the range of the coordinates: the new left
    /// edge can be stored, and so can the reversed speed if the box turns.
    pub open spec fn can_advance(self) -> bool {
        &&& i32::MIN <= self.next_x() <= i32::MAX
        &&& self.turns() ==> self.speed > i32::MIN
    }

    /// The box one tick later: moved by its speed, never clamped to the
    /// screen, and turned round if it now touches or passes a bound.
    pub open spec fn advanced(self) -> FallingBox {
        FallingBox {
            x: self.next_x() as i32,
            y: self.y,
            width: self.width,
            speed: if self.turns() {
                (-self.speed) as i32
            } else {
                self.speed
            },
        }
    }

    /// The box `ticks` ticks later.
    pub open spec fn advanced_by(self, ticks: nat) -> FallingBox
        decreases ticks,
    {
        if ticks == 0 {
            self
        } else {
            self.advanced().advanced_by((ticks - 1) as nat)
        }
    }

    /// The box lies within one tick's travel of the screen and, where it
    /// touches or has passed a bound, it is heading back in.
    pub open spec fn near_screen(self) -> bool {
        &&& self.wf()
        &&& self.width < SCREEN_RIGHT - SCREEN_LEFT
        &&& SCREEN_LEFT - self.stride() < self.x
        &&& self.x + self.width < SCREEN_RIGHT + self.stride()
        &&& self.x <= SCREEN_LEFT ==> self.speed > 0
        &&& self.x + self.width >= SCREEN_RIGHT ==> self.speed < 0
    }

    /// A measure that bounds how far to the right the box can get: its left
    /// edge plus [`PLAY_SCALE`] times its width. A tick changes it by the
    /// speed; a landing never raises it, since it moves the box by less than
    /// its width and, unless the box lined up, narrows it by one unit or more.
    pub open spec fn budget(self) -> int {
        self.x + PLAY_SCALE * self.width
    }

    /// The box belongs to a game at screen scale: it is no wider and no
    /// faster than the screen is wide, and where it is and where its next
    /// tick takes it lie between [`PLAY_LEFT`] and what [`PLAY_BUDGET`]
    /// allows. Ticks and landings keep a box in play, so every coordinate of
    /// such a game stays in range for good.
    pub open spec fn in_play(self) -> bool {
        &&& self.wf()
        &&& self.width <= PLAY_SCALE
        &&& self.stride() <= PLAY_SCALE
        &&& PLAY_LEFT <= self.x
        &&& PLAY_LEFT <= self.next_x()
        &&& self.budget() <= PLAY_BUDGET
        &&& self.budget() + self.speed <= PLAY_BUDGET
    }

    /// The box as a game starts with it.
    pub fn new() -> (falling: FallingBox)
        ensures
            falling == FallingBox::start(),
            falling.wf(),
            falling.near_screen(),
            falling.in_play(),
    {
        FallingBox { x: START_X, y: START_Y, width: START_WIDTH, speed: START_SPEED }
    }

    /// Whether [`FallingBox::advance`] may be called.
    pub fn check_advance(&self) -> (ok: bool)
        ensures
            ok == self.can_advance(),
    {
        let next: i64 = self.x as i64 + self.speed as i64;
        if next < i32::MIN as i64 || next > i32::MAX as i64 {
            false
        } else if next <= SCREEN_LEFT as i64 || next + self.width as i64 >= SCREEN_RIGHT as i64 {
            self.speed > i32::MIN
        } else {
            true
        }
    }

    /// Moves the box by one tick.
    ///
    /// The left edge moves by `speed`. If the box then touches or has passed
    /// a screen bound, its direction is reversed; its position is left as it
    /// is, so it may overshoot the bound by up to one tick's travel.
    pub fn advance(&mut self)
        requires
            old(self).can_advance(),
        ensures
            *final(self) == old(self).advanced(),
            final(self).x == old(self).x + old(self).speed,
            old(self).wf() ==> final(self).wf(),
    {
        self.x = self.x + self.speed;
        if self.x <= SCREEN_LEFT || self.x as i64 + self.width as i64 >= SCREEN_RIGHT as i64 {
            self.speed = -self.speed;
        }
    }
}

/// A box near the screen that is not absurdly fast can always take its next
/// tick.
pub proof fn lemma_near_screen_can_advance(falling: FallingBox)
    requires
        falling.near_screen(),
        falling.stride() <= MAX_STRIDE,
    ensures
        falling.can_advance(),
{
}

/// One tick keeps a box near the screen and keeps its stride. If the tick
/// reversed the box, the box has passed the bound it touched by less than one
/// tick's travel.
pub proof fn lemma_advance_stays_near_screen(falling: FallingBox)
    requires
        falling.near_screen(),
        falling.can_advance(),
    ensures
        falling.advanced().near_screen(),
        falling.advanced().stride() == falling.stride(),
        falling.advanced().speed != falling.speed ==> {
            let after = falling.advanced();
            ||| SCREEN_LEFT - falling.stride() < after.x <= SCREEN_LEFT
            ||| SCREEN_RIGHT <= after.x + after.width < SCREEN_RIGHT + falling.stride()
        },
{
}

/// However many ticks pass, a box that started near the screen is still
/// within one tick's travel of it, heading inward where it is outside, and
/// its stride is what it was.
pub proof fn lemma_free_flight_stays_near_screen(falling: FallingBox, ticks: nat)
    requires
        falling.near_screen(),
        falling.stride() <= MAX_STRIDE,
    ensures
        falling.advanced_by(ticks).near_screen(),
        falling.advanced_by(ticks).stride() == falling.stride(),
    decreases ticks,
{
    if ticks > 0 {
        lemma_near_screen_can_advance(falling);
        lemma_advance_stays_near_screen(falling);
        lemma_free_flight_stays_near_screen(falling.advanced(), (ticks - 1) as nat);
    }
}

/// A box in play can take its next tick, and the tick keeps it in play.
pub proof fn lemma_advance_stays_in_play(falling: FallingBox)
    requires
        falling.in_play(),
    ensures
        falling.can_advance(),
        falling.advanced().in_play(),
{
}

} // verus!
