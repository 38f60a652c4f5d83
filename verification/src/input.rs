//! The input router: what a key event does to the game.

use vstd::prelude::*;
use crate::app_state::AppState;
use crate::game::{GameState, GameView};

verus! {

/// The control that an event comes from.
#[derive(Debug, Clone, Copy, PartialEq, Eq, Structural)]
pub enum Key {
    Confirm,
    Back,
    /// Any control that the game gives no meaning to.
    Other,
}

/// What happened to the control.
#[derive(Debug, Clone, Copy, PartialEq, Eq, Structural)]
pub enum EventKind {
    Press,
    Release,
    LongPress,
    /// Any other kind of event; the game ignores it.
    Other,
}

/// One event as the input source delivers it.
#[derive(Debug, Clone, Copy, PartialEq, Eq, Structural)]
pub struct InputEvent {
    pub key: Key,
    pub kind: EventKind,
}

impl InputEvent {
    /// A long press of the back control asks to quit, in every state.
    pub open spec fn is_quit_request(self) -> bool {
        self.kind == EventKind::LongPress && self.key == Key::Back
    }

    /// Whether the event is a press of the confirm control.
    pub open spec fn is_confirm_press(self) -> bool {
        self.key == Key::Confirm && self.kind == EventKind::Press
    }

    /// Whether the event is a release of the confirm control.
    pub open spec fn is_confirm_release(self) -> bool {
        self.key == Key::Confirm && self.kind == EventKind::Release
    }

    /// Whether the event asks to quit.
    pub fn requests_quit(&self) -> (quit: bool)
        ensures
            quit == self.is_quit_request(),
    {
        self.kind == EventKind::LongPress && self.key == Key::Back
    }
}

/// The game after an event that does not ask to quit.
///
/// While playing, a press of the confirm control requests a drop if the
/// latch is armed and disarms the latch, and a release of it arms the latch;
/// no other event has an effect. In every other state the event only arms
/// the latch, so that a press from before cannot fire when play begins again.
pub open spec fn routed(game: GameView, state: AppState, event: InputEvent) -> GameView {
    if state == AppState::Playing {
        if event.is_confirm_press() {
            game.pressed()
        } else if event.is_confirm_release() {
            game.released()
        } else {
            game
        }
    } else {
        game.released()
    }
}

/// Applies an event that does not ask to quit to the game.
pub fn route(game: &mut GameState, state: AppState, event: InputEvent)
    ensures
        final(game)@ == routed(old(game)@, state, event),
        final(game)@.falling == old(game)@.falling,
        final(game)@.slots == old(game)@.slots,
        final(game)@.score == old(game)@.score,
        old(game)@.wf() ==> final(game)@.wf(),
        old(game)@.in_play() ==> final(game)@.in_play(),
{
    if state == AppState::Playing {
        if event.key == Key::Confirm && event.kind == EventKind::Press {
            game.press_confirm();
        } else if event.key == Key::Confirm && event.kind == EventKind::Release {
            game.release_confirm();
        }
    } else {
        game.release_confirm();
    }
}

} // verus!
