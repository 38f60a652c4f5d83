use sliding_tower::app_state::{record_fault, AppState, ErrorCode, ERROR_STORED, LAST_VALID_CODE};
use sliding_tower::{get_app_state, get_game_state, update_app_state};

const ALL_STATES: [AppState; 6] = [
    AppState::Menu,
    AppState::GameOver,
    AppState::Playing,
    AppState::Pause,
    AppState::Quit,
    AppState::Error,
];

#[test]
fn stored_numbers_decode_to_their_states() {
    assert_eq!(get_app_state(0), (AppState::Menu, None));
    assert_eq!(get_app_state(1), (AppState::GameOver, None));
    assert_eq!(get_app_state(2), (AppState::Playing, None));
    assert_eq!(get_app_state(3), (AppState::Pause, None));
    assert_eq!(get_app_state(4), (AppState::Quit, None));
}

#[test]
fn numbers_that_name_no_state_decode_to_error_with_the_decode_fault() {
    for n in [5usize, 6, 8, 10, 255, usize::MAX] {
        assert_eq!(get_app_state(n), (AppState::Error, Some(ErrorCode::StateDecode)));
    }
}

#[test]
fn a_stored_error_reads_back_without_a_fault() {
    assert_eq!(get_app_state(9), (AppState::Error, None));
    assert_eq!(get_app_state(update_app_state(AppState::Error)), (AppState::Error, None));
}

#[test]
fn fault_numbers_name_their_faults() {
    assert_eq!(ErrorCode::from_number(0), None);
    assert_eq!(ErrorCode::from_number(1), Some(ErrorCode::StateDecode));
    assert_eq!(ErrorCode::from_number(2), Some(ErrorCode::LockUnavailable));
    assert_eq!(ErrorCode::from_number(3), None);
    assert_eq!(ErrorCode::from_number(255), None);
    for code in [ErrorCode::StateDecode, ErrorCode::LockUnavailable] {
        assert_eq!(ErrorCode::from_number(code.code()), Some(code));
        assert_eq!(ErrorCode::from_number(record_fault(0, Some(code))), Some(code));
    }
}

#[test]
fn states_are_stored_under_their_numbers() {
    assert_eq!(update_app_state(AppState::Menu), 0);
    assert_eq!(update_app_state(AppState::GameOver), 1);
    assert_eq!(update_app_state(AppState::Playing), 2);
    assert_eq!(update_app_state(AppState::Pause), 3);
    assert_eq!(update_app_state(AppState::Quit), 4);
    assert_eq!(update_app_state(AppState::Error), 9);
    assert_eq!(ERROR_STORED, 9);
    assert_eq!(LAST_VALID_CODE, 4);
}

#[test]
fn a_stored_state_reads_back() {
    for state in ALL_STATES {
        let (read, fault) = get_app_state(update_app_state(state));
        assert_eq!(read, state);
        assert_eq!(fault, None);
        // a second read gives the same again
        assert_eq!(get_app_state(update_app_state(state)), (state, None));
    }
}

#[test]
fn conversions_agree_with_the_accessors() {
    for state in ALL_STATES {
        let n: usize = state.into();
        assert_eq!(n, update_app_state(state));
        assert_eq!(AppState::from(n), state);
    }
    assert_eq!(AppState::from(7usize), AppState::Error);
}

#[test]
fn error_codes_have_their_numbers() {
    assert_eq!(ErrorCode::StateDecode.code(), 1);
    assert_eq!(ErrorCode::LockUnavailable.code(), 2);
}

#[test]
fn a_granted_lock_is_handed_on() {
    assert_eq!(get_game_state(Some(17u32)), Ok(17u32));
    let mut value = 3i32;
    match get_game_state(Some(&mut value)) {
        Ok(guard) => *guard += 1,
        Err(_) => panic!("a granted lock must give access"),
    }
    assert_eq!(value, 4);
}

#[test]
fn a_refused_lock_is_the_lock_fault() {
    assert_eq!(get_game_state::<u32>(None), Err(ErrorCode::LockUnavailable));
}

#[test]
fn the_machine_knows_its_transitions() {
    let permitted = [
        (AppState::Menu, AppState::Playing),
        (AppState::Playing, AppState::GameOver),
        (AppState::Playing, AppState::Pause),
        (AppState::GameOver, AppState::Playing),
        (AppState::GameOver, AppState::Menu),
        (AppState::Pause, AppState::Playing),
        (AppState::Pause, AppState::Menu),
    ];
    for from in ALL_STATES {
        for to in ALL_STATES {
            let expected = to == AppState::Quit
                || to == AppState::Error
                || permitted.contains(&(from, to));
            assert_eq!(from.can_become(to), expected, "{:?} -> {:?}", from, to);
        }
    }
}

#[test]
fn quit_is_left_only_for_quit_or_error() {
    assert!(!AppState::Quit.can_become(AppState::Menu));
    assert!(!AppState::Quit.can_become(AppState::Playing));
    assert!(!AppState::Quit.can_become(AppState::Pause));
    assert!(!AppState::Quit.can_become(AppState::GameOver));
    assert!(AppState::Quit.is_terminal());
    assert!(AppState::Error.is_terminal());
    assert!(!AppState::Playing.is_terminal());
}

#[test]
fn a_fault_stays_recorded_until_the_next_one() {
    assert_eq!(record_fault(0, None), 0);
    assert_eq!(record_fault(0, Some(ErrorCode::StateDecode)), 1);
    assert_eq!(record_fault(1, None), 1);
    assert_eq!(record_fault(1, Some(ErrorCode::LockUnavailable)), 2);
    assert_eq!(record_fault(2, None), 2);
    assert_eq!(record_fault(2, Some(ErrorCode::StateDecode)), 1);
}
