//! The stacking resolver: what a drop of the falling box onto the tower's
//! reference box leads to.
//!
//! A drop that finds no ground ends the game. A drop that lines up exactly
//! sticks as it is. Any other drop keeps a narrower box: the placed box takes
//! the retained width, and the falling box goes on with that width from a
//! position further to the right.
//!
//! All geometry, that of the placed box included, is computed from the box
//! as it was dropped; nothing is read back from a value that the drop has
//! already changed.

use vstd::prelude::*;
use crate::physics::FallingBox;
use crate::tower::PlacedBox;

verus! {

/// What a drop leads to.
#[derive(Debug, Clone, Copy, PartialEq, Eq, Structural)]
pub enum Landing {
    /// The box found no ground: the game is lost and nothing is placed.
    Miss,
    /// The box landed: `placed` joins the tower and `falling` goes on.
    Landed { placed: PlacedBox, falling: FallingBox },
}

/// The distance between two coordinates.
pub open spec fn distance(a: int, b: int) -> int {
    if a < b {
        b - a
    } else {
        a - b
    }
}

/// The falling box and the reference box share no ground: one begins where
/// the other ends, or beyond.
pub open spec fn apart(falling: FallingBox, below: PlacedBox) -> bool {
    below.left_x >= falling.right() || falling.x >= below.right()
}

/// The width that a drop keeps.
///
/// A box that lines up with the reference keeps its width. A box that hangs
/// over on the left keeps its width less the distance between the two left
/// edges. A box that hangs over on the right keeps what reaches past the
/// right edge of the reference.
pub open spec fn retained_width(falling: FallingBox, below: PlacedBox) -> int {
    if falling.x == below.left_x {
        falling.width as int
    } else if falling.x < below.left_x {
        falling.width - distance(below.left_x as int, falling.x as int)
    } else {
        falling.right() - below.right()
    }
}

/// The drop lands: the boxes share ground and the retained width is
/// positive. A drop that would keep nothing counts as a miss.
pub open spec fn lands(falling: FallingBox, below: PlacedBox) -> bool {
    !apart(falling, below) && retained_width(falling, below) > 0
}

/// The left edge from which the falling box goes on after it has landed: where
/// it was if it lined up, otherwise moved right by half the sum of its old
/// and its retained width.
pub open spec fn continued_x(falling: FallingBox, below: PlacedBox) -> int {
    if falling.x == below.left_x {
        falling.x as int
    } else {
        falling.x + (falling.width + retained_width(falling, below)) / 2
    }
}

/// The left edge of the box that joins the tower: that of the reference for
/// an overhang on the left, that of the falling box as it was dropped
/// otherwise.
pub open spec fn placed_left(falling: FallingBox, below: PlacedBox) -> int {
    if falling.x < below.left_x {
        below.left_x as int
    } else {
        falling.x as int
    }
}

/// The landing keeps every coordinate in range.
pub open spec fn can_resolve(falling: FallingBox, below: PlacedBox) -> bool {
    lands(falling, below) ==> continued_x(falling, below) <= i32::MAX
}

/// What the drop of `falling` onto `below` leads to.
pub open spec fn landing(falling: FallingBox, below: PlacedBox) -> Landing {
    if lands(falling, below) {
        Landing::Landed {
            placed: PlacedBox {
                width: retained_width(falling, below) as i32,
                left_x: placed_left(falling, below) as i32,
            },
            falling: FallingBox {
                x: continued_x(falling, below) as i32,
                y: falling.y,
                width: retained_width(falling, below) as i32,
                speed: falling.speed,
            },
        }
    } else {
        Landing::Miss
    }
}

/// A landing never widens the box, and it moves the box right by less than
/// its width.
pub proof fn lemma_landing_narrows(falling: FallingBox, below: PlacedBox)
    requires
        falling.wf(),
        below.wf(),
        lands(falling, below),
    ensures
        0 < retained_width(falling, below) <= falling.width,
        retained_width(falling, below) == falling.width <==> falling.x == below.left_x,
        falling.x <= continued_x(falling, below) < falling.x + falling.width,
{
}

/// A box in play can land on any box, and the landing keeps it in play.
pub proof fn lemma_landing_stays_in_play(falling: FallingBox, below: PlacedBox)
    requires
        falling.in_play(),
        below.wf(),
    ensures
        can_resolve(falling, below),
        landing(falling, below) matches Landing::Landed { placed, falling: next } ==> next.in_play()
            && placed.wf(),
{
    if lands(falling, below) {
        lemma_landing_narrows(falling, below);
    }
}

/// Whether [`resolve`] may be called.
pub fn check_resolve(falling: FallingBox, below: PlacedBox) -> (ok: bool)
    requires
        falling.wf(),
        below.wf(),
    ensures
        ok == can_resolve(falling, below),
{
    let x: i64 = falling.x as i64;
    let w: i64 = falling.width as i64;
    let lx: i64 = below.left_x as i64;
    let lw: i64 = below.width as i64;
    if lx >= x + w || x >= lx + lw || x == lx {
        true
    } else {
        let kept: i64 = if x < lx {
            w - (lx - x)
        } else {
            (x + w) - (lx + lw)
        };
        kept <= 0 || x + (w + kept) / 2 <= i32::MAX as i64
    }
}

/// Resolves the drop of `falling` onto the reference box `below`.
pub fn resolve(falling: FallingBox, below: PlacedBox) -> (outcome: Landing)
    requires
        falling.wf(),
        below.wf(),
        can_resolve(falling, below),
    ensures
        outcome == landing(falling, below),
        outcome matches Landing::Landed { placed, falling: next } ==> placed.wf() && next.wf(),
{
    let x: i64 = falling.x as i64;
    let w: i64 = falling.width as i64;
    let lx: i64 = below.left_x as i64;
    let lw: i64 = below.width as i64;
    if lx >= x + w || x >= lx + lw {
        return Landing::Miss;
    }
    if x == lx {
        return Landing::Landed {
            placed: PlacedBox { width: falling.width, left_x: falling.x },
            falling,
        };
    }
    let kept: i64 = if x < lx {
        w - (lx - x)
    } else {
        (x + w) - (lx + lw)
    };
    if kept <= 0 {
        return Landing::Miss;
    }
    let next_x: i64 = x + (w + kept) / 2;
    proof {
        lemma_landing_narrows(falling, below);
    }
    let placed_x: i32 = if x < lx {
        below.left_x
    } else {
        falling.x
    };
    Landing::Landed {
        placed: PlacedBox { width: kept as i32, left_x: placed_x },
        falling: FallingBox { x: next_x as i32, y: falling.y, width: kept as i32, speed: falling.speed },
    }
}

} // verus!
