//! The game state: the falling box, the tower, the score and the drop latch,
//! together with the step that a tick takes on them.
//!
//! The state is one aggregate that the tick and the input handler share. The
//! host guards it with a lock; whoever holds the lock reaches the state
//! through the methods here, each of which keeps it well formed.

use vstd::prelude::*;
use crate::physics::{lemma_advance_stays_in_play, FallingBox};
use crate::resolver::{can_resolve, landing, lands, lemma_landing_stays_in_play, resolve, Landing};
use crate::resolver::check_resolve;
use crate::tower::{initial_slots, lemma_stack_keeps_tower, lemma_stacked_reference, reference};
use crate::tower::{stacked, with_box, PlacedBox, Tower, TowerSlot};

verus! {

/// The game state as contracts speak of it.
pub struct GameView {
    pub falling: FallingBox,
    pub slots: Seq<TowerSlot>,
    pub score: int,
    pub drop_requested: bool,
    pub drop_button_released: bool,
}

/// The mutable aggregate of a game in progress.
#[derive(Debug, Clone, Copy, PartialEq, Eq)]
pub struct GameState {
    falling: FallingBox,
    tower: Tower,
    score: i32,
    drop_requested: bool,
    drop_button_released: bool,
}

/// What a tick did to the game.
#[derive(Debug, Clone, Copy, PartialEq, Eq, Structural)]
pub enum StepOutcome {
    /// No drop was pending: the box moved on.
    Moved,
    /// The pending drop landed; the box, narrowed or not, moved on.
    Landed,
    /// The pending drop missed: the game is lost and nothing moved.
    Lost,
}

impl GameView {
    /// The state that a game starts from.
    pub open spec fn initial() -> GameView {
        GameView {
            falling: FallingBox::start(),
            slots: initial_slots(),
            score: 0,
            drop_requested: false,
            drop_button_released: true,
        }
    }

    /// The falling box is well formed, the tower rests on its base without
    /// holes, and the score is not negative.
    pub open spec fn wf(self) -> bool {
        &&& self.falling.wf()
        &&& stacked(self.slots)
        &&& self.score >= 0
    }

    /// The box that a drop is measured against.
    pub open spec fn reference(self) -> PlacedBox {
        reference(self.slots)
    }

    /// Whether a drop made now would land.
    pub open spec fn drop_lands(self) -> bool {
        lands(self.falling, self.reference())
    }

    /// The state after the pending drop was resolved.
    ///
    /// A landing puts the placed box on the tower, lets the falling box go on
    /// as the landing left it and adds one to the score. A miss changes
    /// nothing. Either way the request is cleared.
    pub open spec fn dropped(self) -> GameView {
        match landing(self.falling, self.reference()) {
            Landing::Landed { placed, falling } => GameView {
                falling,
                slots: with_box(self.slots, placed),
                score: self.score + 1,
                drop_requested: false,
                drop_button_released: self.drop_button_released,
            },
            Landing::Miss => GameView { drop_requested: false, ..self },
        }
    }

    /// What the next tick does.
    pub open spec fn step_outcome(self) -> StepOutcome {
        if !self.drop_requested {
            StepOutcome::Moved
        } else if self.drop_lands() {
            StepOutcome::Landed
        } else {
            StepOutcome::Lost
        }
    }

    /// The state one tick later: a pending drop is resolved once and cleared,
    /// and unless the drop missed, the falling box moves on by one tick.
    pub open spec fn stepped(self) -> GameView {
        match self.step_outcome() {
            StepOutcome::Moved => GameView { falling: self.falling.advanced(), ..self },
            StepOutcome::Landed => GameView {
                falling: self.dropped().falling.advanced(),
                ..self.dropped()
            },
            StepOutcome::Lost => self.dropped(),
        }
    }

    /// The state `ticks` ticks later, with no input in between.
    pub open spec fn stepped_by(self, ticks: nat) -> GameView
        decreases ticks,
    {
        if ticks == 0 {
            self
        } else {
            self.stepped().stepped_by((ticks - 1) as nat)
        }
    }

    /// The next tick keeps every number in range: the coordinates of the box
    /// as it lands and moves on, and the score if it grows.
    pub open spec fn can_step(self) -> bool {
        match self.step_outcome() {
            StepOutcome::Moved => self.falling.can_advance(),
            StepOutcome::Landed => {
                &&& can_resolve(self.falling, self.reference())
                &&& self.dropped().falling.can_advance()
                &&& self.score < i32::MAX
            },
            StepOutcome::Lost => true,
        }
    }

    /// The game is well formed and its falling box is in play. A new game
    /// is, and ticks and input keep it so; such a game can always take its
    /// next tick, short of a score that has run out of numbers.
    pub open spec fn in_play(self) -> bool {
        self.wf() && self.falling.in_play()
    }

    /// The state after a press of the confirm control during play. On an
    /// armed latch the press requests a drop and disarms the latch, so that
    /// no further press counts until the latch is armed again. On a disarmed
    /// latch the press does nothing.
    pub open spec fn pressed(self) -> GameView {
        if self.drop_button_released {
            GameView { drop_requested: true, drop_button_released: false, ..self }
        } else {
            self
        }
    }

    /// The state with the latch armed, as after a release of the confirm
    /// control.
    pub open spec fn released(self) -> GameView {
        GameView { drop_button_released: true, ..self }
    }
}

/// A tick keeps a well-formed game well formed.
pub proof fn lemma_step_keeps_wf(game: GameView)
    requires
        game.wf(),
        game.can_step(),
    ensures
        game.stepped().wf(),
{
    lemma_step_keeps_tower(game);
}

/// A tick leaves the tower on its base and without holes, and the score
/// not negative.
proof fn lemma_step_keeps_tower(game: GameView)
    requires
        game.wf(),
    ensures
        stacked(game.stepped().slots),
        game.stepped().score >= 0,
{
    lemma_stacked_reference(game.slots);
    if game.step_outcome() == StepOutcome::Landed {
        let placed = landing(game.falling, game.reference())->placed;
        lemma_stack_keeps_tower(game.slots, placed);
    }
}

/// A game in play can take its next tick unless its score has run out of
/// numbers, and the tick keeps it in play.
pub proof fn lemma_step_stays_in_play(game: GameView)
    requires
        game.in_play(),
    ensures
        game.score < i32::MAX ==> game.can_step(),
        game.stepped().in_play(),
{
    lemma_stacked_reference(game.slots);
    lemma_landing_stays_in_play(game.falling, game.reference());
    lemma_advance_stays_in_play(game.falling);
    if game.step_outcome() == StepOutcome::Landed {
        lemma_advance_stays_in_play(game.dropped().falling);
    }
    lemma_step_keeps_tower(game);
}

/// While no drop is pending, ticks only move the falling box: the tower, the
/// score and the latch stay as they are, and no drop becomes pending.
pub proof fn lemma_idle_ticks_keep_tower(game: GameView, ticks: nat)
    requires
        !game.drop_requested,
    ensures
        game.stepped_by(ticks).slots == game.slots,
        game.stepped_by(ticks).score == game.score,
        !game.stepped_by(ticks).drop_requested,
        game.stepped_by(ticks).drop_button_released == game.drop_button_released,
    decreases ticks,
{
    if ticks > 0 {
        lemma_idle_ticks_keep_tower(game.stepped(), (ticks - 1) as nat);
    }
}

/// One request gives at most one drop, however many ticks follow it: the
/// first tick resolves the drop and clears the request, and every later tick
/// finds the tower and the score as the first one left them.
pub proof fn lemma_ticks_drop_once(game: GameView, ticks: nat)
    requires
        ticks >= 1,
    ensures
        game.stepped_by(ticks).slots == game.stepped().slots,
        game.stepped_by(ticks).score == game.stepped().score,
        !game.stepped_by(ticks).drop_requested,
        game.score <= game.stepped_by(ticks).score <= game.score + 1,
{
    lemma_idle_ticks_keep_tower(game.stepped(), (ticks - 1) as nat);
}

/// A pending drop that lands runs exactly once: the tick that resolves it
/// places one box, adds one to the score and clears the request, and the
/// tick after it leaves the tower and the score as the first one left them.
pub proof fn lemma_landed_drop_runs_once(game: GameView)
    requires
        game.drop_requested,
        game.drop_lands(),
    ensures
        game.step_outcome() == StepOutcome::Landed,
        landing(game.falling, game.reference()) matches Landing::Landed { placed, falling } && {
            &&& game.stepped().slots == with_box(game.slots, placed)
            &&& game.stepped().falling == falling.advanced()
        },
        game.stepped().score == game.score + 1,
        !game.stepped().drop_requested,
        game.stepped().drop_button_released == game.drop_button_released,
        game.stepped().stepped().slots == game.stepped().slots,
        game.stepped().stepped().score == game.stepped().score,
        !game.stepped().stepped().drop_requested,
{
}

/// A pending drop that misses changes nothing but the request, which it
/// clears; the box does not even move.
pub proof fn lemma_lost_drop_changes_nothing(game: GameView)
    requires
        game.drop_requested,
        !game.drop_lands(),
    ensures
        game.step_outcome() == StepOutcome::Lost,
        game.stepped() == (GameView { drop_requested: false, ..game }),
{
}

impl View for GameState {
    type V = GameView;

    closed spec fn view(&self) -> GameView {
        GameView {
            falling: self.falling,
            slots: self.tower@,
            score: self.score as int,
            drop_requested: self.drop_requested,
            drop_button_released: self.drop_button_released,
        }
    }
}

impl GameState {
    /// A new game: the falling box at its start, a fresh tower, no score, no
    /// drop pending and the latch armed.
    pub fn new() -> (game: GameState)
        ensures
            game@ == GameView::initial(),
            game@.wf(),
            game@.in_play(),
    {
        GameState {
            falling: FallingBox::new(),
            tower: Tower::new(),
            score: 0,
            drop_requested: false,
            drop_button_released: true,
        }
    }

    /// Starts the game afresh.
    pub fn reset(&mut self)
        ensures
            final(self)@ == GameView::initial(),
            final(self)@.wf(),
            final(self)@.in_play(),
    {
        *self = GameState::new();
    }

    /// A game that goes on from the given parts; `None` unless the box and
    /// the tower are well formed and the score is not negative.
    pub fn from_parts(
        falling: FallingBox,
        tower: Tower,
        score: i32,
        drop_requested: bool,
        drop_button_released: bool,
    ) -> (game: Option<GameState>)
        ensures
            game matches Some(g) ==> g@ == (GameView {
                falling,
                slots: tower@,
                score: score as int,
                drop_requested,
                drop_button_released,
            }) && g@.wf(),
            game is Some <==> falling.wf() && tower.wf() && score >= 0,
    {
        if falling.width > 0 && falling.speed != 0 && score >= 0 && tower.check_wf() {
            Some(GameState { falling, tower, score, drop_requested, drop_button_released })
        } else {
            None
        }
    }

    /// The falling box.
    pub fn falling(&self) -> (falling: FallingBox)
        ensures
            falling == self@.falling,
    {
        self.falling
    }

    /// The tower.
    pub fn tower(&self) -> (tower: Tower)
        ensures
            tower@ == self@.slots,
    {
        self.tower
    }

    /// The number of boxes landed so far.
    pub fn score(&self) -> (score: i32)
        ensures
            score == self@.score,
    {
        self.score
    }

    /// Whether a drop waits for the next tick.
    pub fn drop_requested(&self) -> (pending: bool)
        ensures
            pending == self@.drop_requested,
    {
        self.drop_requested
    }

    /// Whether the latch is armed, so that the next press requests a drop:
    /// the confirm control has been released since the press that counted
    /// last.
    pub fn drop_button_released(&self) -> (armed: bool)
        ensures
            armed == self@.drop_button_released,
    {
        self.drop_button_released
    }

    /// Takes a press of the confirm control: on an armed latch it requests a
    /// drop and disarms the latch; on a disarmed latch it does nothing. Says
    /// whether the press counted.
    pub fn press_confirm(&mut self) -> (accepted: bool)
        ensures
            final(self)@ == old(self)@.pressed(),
            accepted == old(self)@.drop_button_released,
    {
        if self.drop_button_released {
            self.drop_requested = true;
            self.drop_button_released = false;
            true
        } else {
            false
        }
    }

    /// Arms the latch, as a release of the confirm control does and as every
    /// input outside play does.
    pub fn release_confirm(&mut self)
        ensures
            final(self)@ == old(self)@.released(),
    {
        self.drop_button_released = true;
    }

    /// Whether [`GameState::step`] may be called.
    pub fn check_step(&self) -> (ok: bool)
        requires
            self@.wf(),
        ensures
            ok == self@.can_step(),
    {
        if !self.drop_requested {
            return self.falling.check_advance();
        }
        let below = self.tower.reference();
        proof {
            lemma_stacked_reference(self.tower@);
        }
        if !check_resolve(self.falling, below) {
            return false;
        }
        match resolve(self.falling, below) {
            Landing::Miss => true,
            Landing::Landed { placed: _, falling } => falling.check_advance() && self.score
                < i32::MAX,
        }
    }

    /// Takes one tick.
    ///
    /// A pending drop is resolved against the tower, exactly once, and the
    /// request is cleared. If the drop missed, nothing else changes. In every
    /// other case the falling box then moves on by one tick.
    pub fn step(&mut self) -> (outcome: StepOutcome)
        requires
            old(self)@.wf(),
            old(self)@.can_step(),
        ensures
            final(self)@ == old(self)@.stepped(),
            outcome == old(self)@.step_outcome(),
            final(self)@.wf(),
            !final(self)@.drop_requested,
            old(self)@.in_play() ==> final(self)@.in_play(),
    {
        proof {
            lemma_step_keeps_wf(self@);
            if self@.in_play() {
                lemma_step_stays_in_play(self@);
            }
        }
        let mut outcome = StepOutcome::Moved;
        if self.drop_requested {
            self.drop_requested = false;
            let below = self.tower.reference();
            proof {
                lemma_stacked_reference(self.tower@);
            }
            match resolve(self.falling, below) {
                Landing::Miss => {
                    return StepOutcome::Lost;
                },
                Landing::Landed { placed, falling } => {
                    self.tower.stack(placed);
                    self.falling = falling;
                    self.score = self.score + 1;
                    outcome = StepOutcome::Landed;
                },
            }
        }
        self.falling.advance();
        outcome
    }
}

} // verus!
