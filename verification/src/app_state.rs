//! The application state machine and the fault codes that accompany it.
//!
//! The application state lives in a shared cell as a plain number, apart from
//! the game-state lock, so that reading it never contends with the game. The
//! functions here turn that number into a state and back, and say which
//! transitions the machine knows.

use vstd::prelude::*;

verus! {

/// The number under which [`AppState::Error`] is stored. It stands apart
/// from the numbers of the other states.
pub const ERROR_STORED: usize = 9;

/// The greatest number under which a state other than `Error` is stored.
pub const LAST_VALID_CODE: usize = 4;

/// Which subsystem runs on a tick.
#[derive(Debug, Clone, Copy, PartialEq, Eq, Structural)]
pub enum AppState {
    Menu,
    GameOver,
    Playing,
    Pause,
    Quit,
    /// Entered only when a stored number names no state, or when the game
    /// state could not be locked for an input event.
    Error,
}

/// A fault that is surfaced to the player as a diagnostic number.
#[derive(Debug, Clone, Copy, PartialEq, Eq, Structural)]
pub enum ErrorCode {
    /// The stored number named no application state.
    StateDecode,
    /// The game state was held by the other context when it was needed.
    LockUnavailable,
}

impl ErrorCode {
    /// The number shown on the diagnostic screen.
    pub open spec fn number(self) -> u8 {
        match self {
            ErrorCode::StateDecode => 1,
            ErrorCode::LockUnavailable => 2,
        }
    }

    /// The fault that a number in the fault cell stands for, if any. The
    /// cell holds 0 while no fault was met.
    pub open spec fn named(n: u8) -> Option<ErrorCode> {
        if n == 1 {
            Some(ErrorCode::StateDecode)
        } else if n == 2 {
            Some(ErrorCode::LockUnavailable)
        } else {
            None
        }
    }

    /// The number shown on the diagnostic screen: 1 for a decode fault, 2 for
    /// a lock that could not be taken.
    pub fn code(self) -> (n: u8)
        ensures
            n == self.number(),
    {
        match self {
            ErrorCode::StateDecode => 1,
            ErrorCode::LockUnavailable => 2,
        }
    }

    /// The fault that a number in the fault cell stands for; `None` for 0 and
    /// for every number that names no fault.
    pub fn from_number(n: u8) -> (fault: Option<ErrorCode>)
        ensures
            fault == ErrorCode::named(n),
    {
        if n == 1 {
            Some(ErrorCode::StateDecode)
        } else if n == 2 {
            Some(ErrorCode::LockUnavailable)
        } else {
            None
        }
    }
}

/// What the fault cell holds after a fault was or was not met: a fault
/// replaces what the cell held, and without one the cell keeps its content.
pub open spec fn recorded(held: u8, fault: Option<ErrorCode>) -> u8 {
    match fault {
        Some(code) => code.number(),
        None => held,
    }
}

/// What the fault cell holds after a tick or an event: a fault that was met
/// replaces what the cell held, and without one the cell keeps its content.
/// Nothing but the next fault ever changes it.
pub fn record_fault(held: u8, fault: Option<ErrorCode>) -> (kept: u8)
    ensures
        kept == recorded(held, fault),
{
    match fault {
        Some(code) => code.code(),
        None => held,
    }
}

impl AppState {
    /// The number under which a state is stored.
    pub open spec fn stored(self) -> usize {
        match self {
            AppState::Menu => 0,
            AppState::GameOver => 1,
            AppState::Playing => 2,
            AppState::Pause => 3,
            AppState::Quit => 4,
            AppState::Error => ERROR_STORED,
        }
    }

    /// The state that a stored number stands for; every number that names no
    /// state stands for `Error`.
    pub open spec fn decoded(n: usize) -> AppState {
        if n == 0 {
            AppState::Menu
        } else if n == 1 {
            AppState::GameOver
        } else if n == 2 {
            AppState::Playing
        } else if n == 3 {
            AppState::Pause
        } else if n == 4 {
            AppState::Quit
        } else {
            AppState::Error
        }
    }

    /// Whether a stored number names a state: it is the number of one of the
    /// states, `Error` included.
    pub open spec fn decodable(n: usize) -> bool {
        n <= LAST_VALID_CODE || n == ERROR_STORED
    }

    /// The transition relation of the machine.
    ///
    /// `Menu` starts a game; a game ends in `GameOver` or is suspended in
    /// `Pause`; both lead back to `Playing` or to `Menu`. `Quit` can be
    /// requested in every state and is left by no transition. `Error` can be
    /// entered from every state.
    pub open spec fn permits(self, next: AppState) -> bool {
        match next {
            AppState::Error => true,
            AppState::Quit => true,
            AppState::Playing => self == AppState::Menu || self == AppState::GameOver || self
                == AppState::Pause,
            AppState::GameOver => self == AppState::Playing,
            AppState::Pause => self == AppState::Playing,
            AppState::Menu => self == AppState::GameOver || self == AppState::Pause,
        }
    }

    /// Whether the machine may go from `self` to `next`.
    pub fn can_become(self, next: AppState) -> (allowed: bool)
        ensures
            allowed == self.permits(next),
    {
        match next {
            AppState::Error => true,
            AppState::Quit => true,
            AppState::Playing => self == AppState::Menu || self == AppState::GameOver || self
                == AppState::Pause,
            AppState::GameOver => self == AppState::Playing,
            AppState::Pause => self == AppState::Playing,
            AppState::Menu => self == AppState::GameOver || self == AppState::Pause,
        }
    }

    /// Whether gameplay has ended for good in this state.
    pub fn is_terminal(self) -> (terminal: bool)
        ensures
            terminal == (self == AppState::Quit || self == AppState::Error),
    {
        self == AppState::Quit || self == AppState::Error
    }
}

impl From<usize> for AppState {
    fn from(n: usize) -> (state: AppState) {
        match n {
            0 => AppState::Menu,
            1 => AppState::GameOver,
            2 => AppState::Playing,
            3 => AppState::Pause,
            4 => AppState::Quit,
            _ => AppState::Error,
        }
    }
}

impl vstd::std_specs::convert::FromSpecImpl<usize> for AppState {
    open spec fn obeys_from_spec() -> bool {
        true
    }

    open spec fn from_spec(n: usize) -> AppState {
        AppState::decoded(n)
    }
}

impl From<AppState> for usize {
    fn from(state: AppState) -> (n: usize) {
        match state {
            AppState::Menu => 0,
            AppState::GameOver => 1,
            AppState::Playing => 2,
            AppState::Pause => 3,
            AppState::Quit => 4,
            AppState::Error => ERROR_STORED,
        }
    }
}

impl vstd::std_specs::convert::FromSpecImpl<AppState> for usize {
    open spec fn obeys_from_spec() -> bool {
        true
    }

    open spec fn from_spec(state: AppState) -> usize {
        state.stored()
    }
}

/// Reads the application state out of the number held in the shared cell.
///
/// The number of a state yields that state and no fault; this holds of
/// `Error` as of every other state, so reading back what was stored never
/// records anything. A number that names no state at all yields `Error`
/// together with the decode fault.
pub fn get_app_state(stored: usize) -> (read: (AppState, Option<ErrorCode>))
    ensures
        read.0 == AppState::decoded(stored),
        read.1 == if AppState::decodable(stored) {
            None
        } else {
            Some(ErrorCode::StateDecode)
        },
{
    let state = AppState::from(stored);
    if stored <= LAST_VALID_CODE || stored == ERROR_STORED {
        (state, None)
    } else {
        (state, Some(ErrorCode::StateDecode))
    }
}

/// The number to put into the shared cell so that it holds `new_state`.
pub fn update_app_state(new_state: AppState) -> (stored: usize)
    ensures
        stored == new_state.stored(),
{
    new_state.into()
}

/// Turns the outcome of a non-blocking attempt to lock the game state into
/// access or a fault: a granted lock is handed on untouched, a refused one
/// becomes [`ErrorCode::LockUnavailable`].
pub fn get_game_state<G>(attempt: Option<G>) -> (access: Result<G, ErrorCode>)
    ensures
        access == match attempt {
            Some(guard) => Ok::<G, ErrorCode>(guard),
            None => Err::<G, ErrorCode>(ErrorCode::LockUnavailable),
        },
{
    match attempt {
        Some(guard) => Ok(guard),
        None => Err(ErrorCode::LockUnavailable),
    }
}

/// Storing a state and reading it back gives the same state and raises no
/// fault, whichever state it is.
pub proof fn lemma_stored_state_reads_back(state: AppState)
    ensures
        AppState::decoded(state.stored()) == state,
        AppState::decodable(state.stored()),
{
}

/// A number reads as `Error` exactly when it is the number of `Error` or
/// names no state at all; only the latter is a fault.
pub proof fn lemma_error_reads(n: usize)
    ensures
        AppState::decoded(n) == AppState::Error <==> n == ERROR_STORED || !AppState::decodable(n),
        !AppState::decodable(n) ==> AppState::decoded(n) == AppState::Error,
{
}

/// A fault that was recorded reads back as the fault it was, under its own
/// number, and stays in the cell until the next fault is met.
pub proof fn lemma_recorded_fault_reads_back(held: u8, fault: Option<ErrorCode>)
    ensures
        fault is Some ==> ErrorCode::named(recorded(held, fault)) == fault,
        fault is None ==> recorded(held, fault) == held,
        ErrorCode::named(0) is None,
{
}

} // verus!
