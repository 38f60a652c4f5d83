use sliding_tower::game::{GameState, StepOutcome};
use sliding_tower::physics::FallingBox;
use sliding_tower::tower::{PlacedBox, Tower, TowerSlot};

const EMPTY: TowerSlot = TowerSlot::Empty;

fn used(left_x: i32, width: i32) -> TowerSlot {
    TowerSlot::Used(PlacedBox { width, left_x })
}

fn falling(x: i32, width: i32, speed: i32) -> FallingBox {
    FallingBox { x, y: 10, width, speed }
}

fn on_base(left_x: i32, width: i32) -> Tower {
    Tower { slots: [EMPTY, EMPTY, EMPTY, EMPTY, used(left_x, width)] }
}

fn game(f: FallingBox, tower: Tower, score: i32, pending: bool) -> GameState {
    GameState::from_parts(f, tower, score, pending, true).expect("well-formed parts")
}

#[test]
fn a_new_game_has_its_start_values() {
    let g = GameState::new();
    assert_eq!(g.falling(), falling(0, 64, 1));
    assert_eq!(g.tower(), Tower::new());
    assert_eq!(g.score(), 0);
    assert!(!g.drop_requested());
    assert!(g.drop_button_released());
    assert_eq!(
        GameState::from_parts(falling(0, 64, 1), Tower::new(), 0, false, true),
        Some(g)
    );
}

#[test]
fn parts_that_are_not_well_formed_make_no_game() {
    let t = Tower::new();
    assert_eq!(GameState::from_parts(falling(0, 0, 1), t, 0, false, true), None);
    assert_eq!(GameState::from_parts(falling(0, -3, 1), t, 0, false, true), None);
    assert_eq!(GameState::from_parts(falling(0, 64, 0), t, 0, false, true), None);
    assert_eq!(GameState::from_parts(falling(0, 64, 1), t, -1, false, true), None);
    let holes = Tower { slots: [EMPTY, used(1, 2), EMPTY, EMPTY, used(3, 4)] };
    assert_eq!(GameState::from_parts(falling(0, 64, 1), holes, 0, false, true), None);
    assert!(GameState::from_parts(falling(-7, 1, -1), t, 5, true, false).is_some());
}

#[test]
fn a_tick_without_a_request_only_moves_the_box() {
    let mut g = GameState::new();
    assert!(g.check_step());
    assert_eq!(g.step(), StepOutcome::Moved);
    assert_eq!(g.falling(), falling(1, 64, 1));
    assert_eq!(g.tower(), Tower::new());
    assert_eq!(g.score(), 0);
    assert!(!g.drop_requested());
}

#[test]
fn an_exact_drop_places_the_box_and_scores() {
    let mut g = game(falling(32, 64, 1), on_base(32, 64), 0, true);
    assert!(g.check_step());
    assert_eq!(g.step(), StepOutcome::Landed);
    assert_eq!(
        g.tower().slots,
        [EMPTY, EMPTY, EMPTY, used(32, 64), used(32, 64)]
    );
    assert_eq!(g.score(), 1);
    // no narrowing; the box then moves on by one tick
    assert_eq!(g.falling(), falling(33, 64, 1));
    assert!(!g.drop_requested());
}

#[test]
fn a_left_overhang_narrows_the_box() {
    let mut g = game(falling(10, 50, 1), on_base(20, 40), 3, true);
    assert_eq!(g.step(), StepOutcome::Landed);
    assert_eq!(
        g.tower().slots,
        [EMPTY, EMPTY, EMPTY, used(20, 40), used(20, 40)]
    );
    assert_eq!(g.score(), 4);
    // recentred to 55, then one tick to the right
    assert_eq!(g.falling(), falling(56, 40, 1));
}

#[test]
fn a_right_overhang_places_the_box_where_it_was_dropped() {
    let mut g = game(falling(40, 64, 1), on_base(32, 64), 0, true);
    assert_eq!(g.step(), StepOutcome::Landed);
    assert_eq!(
        g.tower().slots,
        [EMPTY, EMPTY, EMPTY, used(40, 8), used(32, 64)]
    );
    // recentred to 76, then one tick to the right
    assert_eq!(g.falling(), falling(77, 8, 1));
    assert_eq!(g.score(), 1);
    let mut h = game(falling(40, 64, -1), on_base(32, 64), 0, true);
    assert_eq!(h.step(), StepOutcome::Landed);
    assert_eq!(
        h.tower().slots,
        [EMPTY, EMPTY, EMPTY, used(40, 8), used(32, 64)]
    );
    assert_eq!(h.falling(), falling(75, 8, -1));
}

#[test]
fn a_miss_ends_the_game_and_changes_nothing_else() {
    let before = game(falling(0, 10, 1), on_base(50, 10), 7, true);
    let mut g = before;
    assert!(g.check_step());
    assert_eq!(g.step(), StepOutcome::Lost);
    assert_eq!(g.falling(), before.falling());
    assert_eq!(g.tower(), before.tower());
    assert_eq!(g.score(), 7);
    assert!(!g.drop_requested());
    assert_eq!(g.drop_button_released(), before.drop_button_released());
}

#[test]
fn a_miss_on_a_full_tower_leaves_every_slot_in_place() {
    let full = Tower {
        slots: [used(100, 5), used(26, 40), used(28, 50), used(30, 60), used(32, 64)],
    };
    let mut g = game(falling(0, 10, 1), full, 4, true);
    assert_eq!(g.step(), StepOutcome::Lost);
    assert_eq!(g.tower(), full);
    assert_eq!(g.score(), 4);
}

#[test]
fn a_fifth_box_pushes_the_base_out() {
    let full = Tower {
        slots: [used(24, 30), used(26, 40), used(28, 50), used(30, 60), used(32, 64)],
    };
    let mut g = game(falling(24, 30, 1), full, 4, true);
    assert_eq!(g.step(), StepOutcome::Landed);
    assert_eq!(
        g.tower().slots,
        [used(24, 30), used(24, 30), used(26, 40), used(28, 50), used(30, 60)]
    );
    assert_eq!(g.tower().slots.len(), 5);
    assert_eq!(g.score(), 5);
}

#[test]
fn the_drop_is_measured_against_the_topmost_box() {
    let tower = Tower {
        slots: [EMPTY, EMPTY, used(80, 20), used(30, 60), used(32, 64)],
    };
    // over the base, but not over the topmost box
    let mut g = game(falling(32, 20, 1), tower, 2, true);
    assert_eq!(g.step(), StepOutcome::Lost);
    // over the topmost box
    let mut h = game(falling(80, 20, 1), tower, 2, true);
    assert_eq!(h.step(), StepOutcome::Landed);
    assert_eq!(
        h.tower().slots,
        [EMPTY, used(80, 20), used(80, 20), used(30, 60), used(32, 64)]
    );
}

#[test]
fn one_request_gives_one_drop_over_many_ticks() {
    let mut g = GameState::new();
    assert!(g.press_confirm());
    assert!(g.drop_requested());
    assert_eq!(g.step(), StepOutcome::Landed);
    let after_first = g;
    assert_eq!(after_first.score(), 1);
    for _ in 0..500 {
        assert!(g.check_step());
        assert_eq!(g.step(), StepOutcome::Moved);
        assert_eq!(g.score(), 1);
        assert_eq!(g.tower(), after_first.tower());
        assert!(!g.drop_requested());
    }
}

#[test]
fn an_accepted_press_disarms_the_latch() {
    let mut g = GameState::new();
    assert!(g.drop_button_released());
    assert!(g.press_confirm());
    assert!(g.drop_requested());
    assert!(!g.drop_button_released());
    assert_eq!(
        Some(g),
        GameState::from_parts(falling(0, 64, 1), Tower::new(), 0, true, false)
    );
}

#[test]
fn a_press_counts_only_while_the_latch_is_armed() {
    let mut g = GameState::new();
    assert!(g.press_confirm());
    assert_eq!(g.step(), StepOutcome::Landed);
    // still held: further presses do nothing
    for _ in 0..3 {
        let before = g;
        assert!(!g.press_confirm());
        assert_eq!(g, before);
        assert!(!g.drop_requested());
        assert_eq!(g.step(), StepOutcome::Moved);
    }
    assert_eq!(g.score(), 1);
    g.release_confirm();
    assert!(g.drop_button_released());
    assert!(g.press_confirm());
    assert!(g.drop_requested());
    assert!(!g.drop_button_released());
}

#[test]
fn a_press_on_a_pending_request_keeps_one_request() {
    let mut g = GameState::from_parts(falling(0, 64, 1), Tower::new(), 0, true, true)
        .expect("well-formed parts");
    assert!(g.press_confirm());
    assert!(g.drop_requested());
    assert_eq!(g.step(), StepOutcome::Landed);
    assert_eq!(g.step(), StepOutcome::Moved);
    assert_eq!(g.score(), 1);
}

#[test]
fn reset_starts_the_game_afresh() {
    let mut g = game(falling(10, 50, 1), on_base(20, 40), 3, true);
    g.step();
    g.reset();
    assert_eq!(g, GameState::new());
}

#[test]
fn a_tick_that_leaves_the_number_range_cannot_be_taken() {
    let far = game(falling(i32::MAX, 5, 1), Tower::new(), 0, false);
    assert!(!far.check_step());
    let rich = game(falling(32, 64, 1), on_base(32, 64), i32::MAX, true);
    assert!(!rich.check_step());
    let rich_but_idle = game(falling(32, 64, 1), on_base(32, 64), i32::MAX, false);
    assert!(rich_but_idle.check_step());
    let rich_but_missing = game(falling(0, 10, 1), on_base(50, 10), i32::MAX, true);
    assert!(rich_but_missing.check_step());
    let edge = game(falling(i32::MAX - 10, 100, 1), on_base(i32::MAX - 5, 5), 0, true);
    assert!(!edge.check_step());
}

#[test]
fn a_whole_game_keeps_the_tower_well_formed() {
    // The player releases and presses whenever the box lines up with the
    // topmost box of the tower.
    let mut g = GameState::new();
    let mut drops = 0;
    for _ in 0..5000 {
        if g.falling().x == g.tower().reference().left_x {
            g.release_confirm();
            assert!(g.press_confirm());
        }
        assert!(g.check_step());
        let score = g.score();
        match g.step() {
            StepOutcome::Landed => {
                drops += 1;
                assert_eq!(g.score(), score + 1);
            }
            StepOutcome::Moved => assert_eq!(g.score(), score),
            StepOutcome::Lost => panic!("a box that lines up must land"),
        }
        assert!(g.tower().check_wf());
        assert_eq!(g.falling().width, 64);
    }
    assert_eq!(g.score(), drops);
    assert!(drops >= 50);
    assert!(g.tower().is_full());
    assert_eq!(g.tower().slots, [used(32, 64); 5]);
}

#[test]
fn a_careless_game_is_lost_without_harm() {
    let mut g = GameState::new();
    let mut lost = false;
    for tick in 0..5000 {
        if tick % 37 == 5 {
            g.press_confirm();
        }
        if tick % 37 == 20 {
            g.release_confirm();
        }
        assert!(g.check_step());
        let before = g;
        if g.step() == StepOutcome::Lost {
            assert_eq!(g.score(), before.score());
            assert_eq!(g.tower(), before.tower());
            assert_eq!(g.falling(), before.falling());
            lost = true;
            break;
        }
        assert!(g.tower().check_wf());
        assert!(g.falling().width > 0);
    }
    assert!(lost);
    assert_eq!(g.score(), 1);
}
