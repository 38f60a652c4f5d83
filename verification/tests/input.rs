use sliding_tower::app_state::AppState;
use sliding_tower::game::GameState;
use sliding_tower::input::{route, EventKind, InputEvent, Key};
use sliding_tower::physics::FallingBox;
use sliding_tower::tower::Tower;

const KEYS: [Key; 3] = [Key::Confirm, Key::Back, Key::Other];
const KINDS: [EventKind; 4] = [
    EventKind::Press,
    EventKind::Release,
    EventKind::LongPress,
    EventKind::Other,
];
const IDLE_STATES: [AppState; 5] = [
    AppState::Menu,
    AppState::GameOver,
    AppState::Pause,
    AppState::Quit,
    AppState::Error,
];

fn with_latch(pending: bool, armed: bool) -> GameState {
    GameState::from_parts(FallingBox::new(), Tower::new(), 0, pending, armed)
        .expect("well-formed parts")
}

fn event(key: Key, kind: EventKind) -> InputEvent {
    InputEvent { key, kind }
}

#[test]
fn only_a_long_press_of_back_asks_to_quit() {
    for key in KEYS {
        for kind in KINDS {
            let expected = key == Key::Back && kind == EventKind::LongPress;
            assert_eq!(event(key, kind).requests_quit(), expected);
        }
    }
}

#[test]
fn a_confirm_press_in_play_requests_a_drop_and_disarms_the_latch() {
    let mut g = with_latch(false, true);
    route(&mut g, AppState::Playing, event(Key::Confirm, EventKind::Press));
    assert_eq!(g, with_latch(true, false));
    let mut pending = with_latch(true, true);
    route(&mut pending, AppState::Playing, event(Key::Confirm, EventKind::Press));
    assert_eq!(pending, with_latch(true, false));
}

#[test]
fn a_confirm_press_in_play_is_ignored_while_the_latch_is_not_armed() {
    let mut g = with_latch(false, false);
    route(&mut g, AppState::Playing, event(Key::Confirm, EventKind::Press));
    assert_eq!(g, with_latch(false, false));
    let mut pending = with_latch(true, false);
    route(&mut pending, AppState::Playing, event(Key::Confirm, EventKind::Press));
    assert_eq!(pending, with_latch(true, false));
}

#[test]
fn a_confirm_release_in_play_arms_the_latch() {
    let mut g = with_latch(false, false);
    route(&mut g, AppState::Playing, event(Key::Confirm, EventKind::Release));
    assert_eq!(g, with_latch(false, true));
    let mut pending = with_latch(true, false);
    route(&mut pending, AppState::Playing, event(Key::Confirm, EventKind::Release));
    assert_eq!(pending, with_latch(true, true));
}

#[test]
fn other_events_in_play_change_nothing() {
    for key in KEYS {
        for kind in KINDS {
            let confirm_press = key == Key::Confirm && kind == EventKind::Press;
            let confirm_release = key == Key::Confirm && kind == EventKind::Release;
            if confirm_press || confirm_release {
                continue;
            }
            for (pending, armed) in [(false, false), (false, true), (true, false), (true, true)] {
                let mut g = with_latch(pending, armed);
                route(&mut g, AppState::Playing, event(key, kind));
                assert_eq!(g, with_latch(pending, armed));
            }
        }
    }
}

#[test]
fn outside_play_every_event_arms_the_latch_and_requests_nothing() {
    for state in IDLE_STATES {
        for key in KEYS {
            for kind in KINDS {
                for pending in [false, true] {
                    let mut g = with_latch(pending, false);
                    route(&mut g, state, event(key, kind));
                    assert_eq!(g, with_latch(pending, true));
                }
            }
        }
    }
}

#[test]
fn routing_never_touches_box_tower_or_score() {
    let mut g = GameState::new();
    g.step();
    let before = g;
    for state in [AppState::Playing, AppState::Menu] {
        for key in KEYS {
            for kind in KINDS {
                route(&mut g, state, event(key, kind));
                assert_eq!(g.falling(), before.falling());
                assert_eq!(g.tower(), before.tower());
                assert_eq!(g.score(), before.score());
            }
        }
    }
}
