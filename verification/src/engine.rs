//! The two entry points of the engine: the periodic tick and the input
//! event.
//!
//! The host calls them from two contexts that may preempt each other. Before
//! each call it reads the stored application state and the fault cell and
//! tries, without waiting, to lock the game state; it passes in what it got.
//! Afterwards it stores the transition and records the fault that the report
//! names, if any, and draws the frame.

use vstd::prelude::*;
use crate::app_state::{get_app_state, get_game_state, record_fault, recorded, AppState, ErrorCode};
use crate::game::{lemma_ticks_drop_once, GameState, GameView, StepOutcome};
use crate::input::{route, routed, EventKind, InputEvent, Key};
use crate::render::{diagnostic_frame, diagnostic_view, loss_frame, loss_view};
use crate::render::{scene, scene_view, Frame};

verus! {

/// What a tick asks of the host.
#[derive(Debug, PartialEq, Eq)]
pub struct TickReport {
    /// The application state to store, if the tick changed it.
    pub transition: Option<AppState>,
    /// The fault to record, if the tick met one.
    pub fault: Option<ErrorCode>,
    /// What to draw.
    pub frame: Frame,
}

/// What an input event asks of the host.
#[derive(Debug, Clone, Copy, PartialEq, Eq)]
pub struct InputReport {
    /// The application state to store, if the event changed it.
    pub transition: Option<AppState>,
    /// The fault to record, if handling the event met one.
    pub fault: Option<ErrorCode>,
}

/// The fault that a tick or an event meets before it reaches the game: a
/// lock that was not granted comes first, a stored number that names no state
/// second. Reading a stored state, `Error` included, is no fault.
pub open spec fn entry_fault(stored: usize, granted: bool) -> Option<ErrorCode> {
    if !granted {
        Some(ErrorCode::LockUnavailable)
    } else if !AppState::decodable(stored) {
        Some(ErrorCode::StateDecode)
    } else {
        None
    }
}

/// Whether a tick shows the diagnostic screen instead of running the game:
/// the lock was not granted, or the application is in `Error`.
pub open spec fn halted(stored: usize, granted: bool) -> bool {
    !granted || AppState::decoded(stored) == AppState::Error
}

/// The fault that the diagnostic screen names: the one that the fault cell
/// holds once this tick's own fault, if it met one, is recorded. A fault
/// recorded before stays on display under its own number.
pub open spec fn shown_fault(stored: usize, held: u8, granted: bool) -> Option<ErrorCode> {
    ErrorCode::named(recorded(held, entry_fault(stored, granted)))
}

/// The transition that a tick of the game brings: a lost drop ends the game.
pub open spec fn tick_transition(game: GameView) -> Option<AppState> {
    if game.step_outcome() == StepOutcome::Lost {
        Some(AppState::GameOver)
    } else {
        None
    }
}

/// The periodic tick.
///
/// `stored` is the number read from the application-state cell, `held` the
/// number read from the fault cell, `game` the game state if the lock was
/// granted.
///
/// If the lock was not granted, or the application is in `Error`, the tick
/// leaves the game alone and shows the diagnostic screen. The screen names
/// the fault that this tick met or, if it met none, the fault recorded
/// before. Otherwise the game takes one step: a lost drop ends the game and
/// shows the loss mark, anything else shows the scene.
pub fn on_tick(stored: usize, held: u8, game: Option<&mut GameState>) -> (report: TickReport)
    requires
        game matches Some(g) ==> g@.wf() && (!halted(stored, true) ==> g@.can_step()),
    ensures
        report.fault == entry_fault(stored, game is Some),
        halted(stored, game is Some) ==> {
            &&& report.transition is None
            &&& report.frame@ == diagnostic_view(shown_fault(stored, held, game is Some))
            &&& game matches Some(g) ==> final(g)@ == g@
        },
        !halted(stored, game is Some) ==> {
            &&& game matches Some(g)
            &&& final(g)@ == g@.stepped()
            &&& final(g)@.wf()
            &&& g@.in_play() ==> final(g)@.in_play()
            &&& report.transition == tick_transition(g@)
            &&& report.frame@ == if g@.step_outcome() == StepOutcome::Lost {
                loss_view()
            } else {
                scene_view(g@.stepped())
            }
        },
{
    let (app_state, decode_fault) = get_app_state(stored);
    match get_game_state(game) {
        Err(code) => TickReport {
            transition: None,
            fault: Some(code),
            frame: diagnostic_frame(Some(code)),
        },
        Ok(state) => {
            if app_state == AppState::Error {
                let shown = ErrorCode::from_number(record_fault(held, decode_fault));
                TickReport { transition: None, fault: decode_fault, frame: diagnostic_frame(shown) }
            } else {
                match state.step() {
                    StepOutcome::Lost => TickReport {
                        transition: Some(AppState::GameOver),
                        fault: None,
                        frame: loss_frame(),
                    },
                    _ => TickReport { transition: None, fault: None, frame: scene(state) },
                }
            }
        },
    }
}

/// An input event.
///
/// `stored` is the number read from the application-state cell, `game` the
/// game state if the lock was granted.
///
/// A long press of the back control quits at once, whatever else holds. For
/// every other event: if the lock was not granted the event is dropped, the
/// application enters `Error` and the lock fault is reported; otherwise the
/// event is routed to the game, and a stored number that names no state is
/// reported as a fault.
pub fn on_input(stored: usize, game: Option<&mut GameState>, event: InputEvent) -> (report:
    InputReport)
    ensures
        event.is_quit_request() ==> {
            &&& report.transition == input_transition(event, game is Some)
            &&& report.transition == Some(AppState::Quit)
            &&& report.fault is None
            &&& game matches Some(g) ==> final(g)@ == g@
        },
        !event.is_quit_request() ==> {
            &&& report.fault == entry_fault(stored, game is Some)
            &&& report.transition == input_transition(event, game is Some)
            &&& game matches Some(g) ==> final(g)@ == routed(g@, AppState::decoded(stored), event)
        },
        game matches Some(g) ==> {
            &&& g@.wf() ==> final(g)@.wf()
            &&& g@.in_play() ==> final(g)@.in_play()
        },
{
    if event.requests_quit() {
        return InputReport { transition: Some(AppState::Quit), fault: None };
    }
    let (state, decode_fault) = get_app_state(stored);
    match get_game_state(game) {
        Err(code) => InputReport { transition: Some(AppState::Error), fault: Some(code) },
        Ok(game_state) => {
            route(game_state, state, event);
            InputReport { transition: None, fault: decode_fault }
        },
    }
}

/// The transition that an event brings: a long press of the back control
/// quits; any other event that finds the lock taken puts the application
/// into `Error`.
pub open spec fn input_transition(event: InputEvent, granted: bool) -> Option<AppState> {
    if event.is_quit_request() {
        Some(AppState::Quit)
    } else if !granted {
        Some(AppState::Error)
    } else {
        None
    }
}

/// One thing that happens to the game: a tick, or an event that arrives
/// while the application is in the given state.
pub enum Happening {
    Tick,
    Input(AppState, InputEvent),
}

impl Happening {
    /// The game after this happened.
    pub open spec fn apply(self, game: GameView) -> GameView {
        match self {
            Happening::Tick => game.stepped(),
            Happening::Input(state, event) => routed(game, state, event),
        }
    }

    /// Whether this arms the latch, and so ends a press-to-release cycle: a
    /// release of the confirm control during play, or any event outside
    /// play.
    pub open spec fn is_release(self) -> bool {
        self matches Happening::Input(state, event) && (state != AppState::Playing
            || event.is_confirm_release())
    }
}

/// The game after everything in `history` happened, in order.
pub open spec fn played(game: GameView, history: Seq<Happening>) -> GameView
    decreases history.len(),
{
    if history.len() == 0 {
        game
    } else {
        history.last().apply(played(game, history.drop_last()))
    }
}

/// The number of happenings in `history` that arm the latch.
pub open spec fn releases(history: Seq<Happening>) -> nat
    decreases history.len(),
{
    if history.len() == 0 {
        0
    } else if history.last().is_release() {
        releases(history.drop_last()) + 1
    } else {
        releases(history.drop_last())
    }
}

/// The drops that the game can still make without the latch being armed
/// anew: one for a request that is pending, and one for a latch that is
/// armed and so lets the next press count.
pub open spec fn owed(game: GameView) -> int {
    (if game.drop_requested {
        1int
    } else {
        0int
    }) + (if game.drop_button_released {
        1int
    } else {
        0int
    })
}

/// However ticks and events interleave, the score never falls, and it grows
/// by no more than what was owed at the outset and one for each time the
/// latch is armed. A press counts only on an armed latch and disarms it, a
/// tick drops only what a press has requested, and a request is spent by the
/// tick that resolves it: so each press-to-release cycle gives one drop at
/// most.
pub proof fn lemma_one_drop_per_cycle(game: GameView, history: Seq<Happening>)
    ensures
        game.score <= played(game, history).score,
        played(game, history).score + owed(played(game, history)) <= game.score + owed(game)
            + releases(history),
    decreases history.len(),
{
    if history.len() > 0 {
        lemma_one_drop_per_cycle(game, history.drop_last());
    }
}

/// While the confirm control is held down, after the press that counted, no
/// mix of ticks and further presses drops more than the one box that the
/// press asked for: with the latch disarmed and nothing in `history` arming
/// it, the score grows by one at most, and by nothing if no request is
/// pending.
pub proof fn lemma_held_button_drops_once(game: GameView, history: Seq<Happening>)
    requires
        !game.drop_button_released,
        releases(history) == 0,
    ensures
        game.score <= played(game, history).score,
        played(game, history).score <= game.score + if game.drop_requested {
            1int
        } else {
            0int
        },
        !played(game, history).drop_button_released,
{
    lemma_one_drop_per_cycle(game, history);
    lemma_held_latch_stays_disarmed(game, history);
}

/// Nothing but a happening that arms the latch arms it.
proof fn lemma_held_latch_stays_disarmed(game: GameView, history: Seq<Happening>)
    requires
        !game.drop_button_released,
        releases(history) == 0,
    ensures
        !played(game, history).drop_button_released,
    decreases history.len(),
{
    if history.len() > 0 {
        lemma_held_latch_stays_disarmed(game, history.drop_last());
    }
}

/// A press of the confirm control, held over any number of ticks with no
/// other input, drops at most one box, in whatever state the application is
/// and whether or not a drop was pending before.
pub proof fn lemma_held_press_drops_once(game: GameView, state: AppState, ticks: nat)
    ensures
        ({
            let press = InputEvent { key: Key::Confirm, kind: EventKind::Press };
            let after = routed(game, state, press).stepped_by(ticks);
            game.score <= after.score <= game.score + 1
        }),
{
    let press = InputEvent { key: Key::Confirm, kind: EventKind::Press };
    if ticks >= 1 {
        lemma_ticks_drop_once(routed(game, state, press), ticks);
    }
}

/// The transitions that the engine reports, held against the state machine.
///
/// An event reports only `Quit` and `Error`, which the machine knows from
/// every state. A tick reports only `GameOver`, for a lost drop, and it does
/// so whatever state is stored; the machine knows that transition from
/// `Playing` alone. So during play every reported transition is one that the
/// machine knows, and outside play a reported `GameOver` is not.
pub proof fn lemma_reported_transitions(
    state: AppState,
    game: GameView,
    event: InputEvent,
    granted: bool,
)
    ensures
        input_transition(event, granted) matches Some(next) ==> state.permits(next),
        tick_transition(game) matches Some(next) ==> next == AppState::GameOver && (state.permits(
            next,
        ) <==> state == AppState::Playing),
{
}

} // verus!
