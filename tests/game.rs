use dino_run::game::{Game, Input, Outcome, CLEARANCE, LAUNCH_VELOCITY, RUNNER_COLUMN, SPAWN_COLUMN};
use dino_run::input::{decode_key, Key};

fn run_idle_until_column(g: &mut Game, column: i32) {
    while g.cactus_x != column {
        assert_eq!(g.tick(Input::Idle), Outcome::Running);
    }
}

#[test]
fn new_game_starts_at_rest() {
    let g = Game::new();
    assert_eq!(g.score, 0);
    assert_eq!(g.dino_y, 0);
    assert_eq!(g.dino_velocity, 0);
    assert_eq!(g.cactus_x, 40);
    assert!(!g.game_over);
}

#[test]
fn grounded_jump_sets_launch_velocity_and_lifts_off() {
    let mut g = Game::new();
    g.jump();
    assert_eq!(g.dino_velocity, LAUNCH_VELOCITY);
    assert_eq!(g.dino_velocity, -4);
    g.update();
    assert!(g.dino_y < 0);
    assert_eq!(g.dino_y, -3);
    assert_eq!(g.dino_velocity, -3);
}

#[test]
fn airborne_jump_is_ignored() {
    let mut g = Game::new();
    g.tick(Input::Jump);
    g.tick(Input::Idle);
    let before = g;
    assert_eq!(before.dino_y, -5);
    g.jump();
    assert_eq!(g, before);
    g.tick(Input::Jump);
    assert_eq!(g.dino_velocity, -1);
    assert_eq!(g.dino_y, -6);
}

#[test]
fn jump_arc_lands_and_stays_grounded() {
    let mut g = Game::new();
    g.tick(Input::Jump);
    let mut heights = vec![g.dino_y];
    for _ in 0..8 {
        g.tick(Input::Idle);
        heights.push(g.dino_y);
    }
    assert_eq!(heights, vec![-3, -5, -6, -6, -5, -3, 0, 0, 0]);
    assert_eq!(g.dino_velocity, 0);
    for h in heights {
        assert!(h <= 0);
    }
}

#[test]
fn jump_on_landing_tick_launches_again() {
    let mut g = Game::new();
    g.tick(Input::Jump);
    for _ in 0..6 {
        g.tick(Input::Idle);
    }
    assert_eq!(g.dino_y, 0);
    assert_eq!(g.dino_velocity, 3);
    g.jump();
    assert_eq!(g.dino_velocity, LAUNCH_VELOCITY);
}

#[test]
fn obstacle_moves_left_one_column_per_tick() {
    let mut g = Game::new();
    for expected in (36..40).rev() {
        g.tick(Input::Jump);
        assert_eq!(g.cactus_x, expected);
        assert_eq!(g.score, 0);
    }
}

#[test]
fn obstacle_wraps_to_spawn_and_scores() {
    let mut g = Game {
        score: 7,
        dino_y: 0,
        dino_velocity: 0,
        cactus_x: 0,
        game_over: false,
    };
    g.update();
    assert_eq!(g.cactus_x, SPAWN_COLUMN);
    assert_eq!(g.score, 8);
    assert!(!g.game_over);
}

#[test]
fn score_counts_wraps_over_many_ticks() {
    let mut g = Game {
        score: 0,
        dino_y: -6,
        dino_velocity: 0,
        cactus_x: 4,
        game_over: false,
    };
    let mut wraps = 0u32;
    for _ in 0..200 {
        let before = g.cactus_x;
        g.tick(Input::Jump);
        if g.game_over {
            break;
        }
        if g.cactus_x > before {
            wraps += 1;
            assert_eq!(g.cactus_x, SPAWN_COLUMN);
            assert_eq!(before, 0);
        } else {
            assert_eq!(g.cactus_x, before - 1);
        }
        assert_eq!(g.score, wraps);
    }
    assert!(wraps >= 1);
}

#[test]
fn collision_when_low_in_runner_column() {
    let mut g = Game {
        score: 2,
        dino_y: 0,
        dino_velocity: 0,
        cactus_x: RUNNER_COLUMN + 1,
        game_over: false,
    };
    g.update();
    assert_eq!(g.cactus_x, RUNNER_COLUMN);
    assert!(g.dino_y > -CLEARANCE);
    assert!(g.game_over);
}

#[test]
fn no_collision_when_high_in_runner_column() {
    let mut g = Game {
        score: 2,
        dino_y: -5,
        dino_velocity: -2,
        cactus_x: RUNNER_COLUMN + 1,
        game_over: false,
    };
    g.update();
    assert_eq!(g.cactus_x, RUNNER_COLUMN);
    assert_eq!(g.dino_y, -6);
    assert!(!g.game_over);
}

#[test]
fn collision_decision_is_the_same_each_time() {
    let start = Game {
        score: 0,
        dino_y: 0,
        dino_velocity: 3,
        cactus_x: RUNNER_COLUMN + 1,
        game_over: false,
    };
    let mut a = start;
    let mut b = start;
    assert_eq!(a.tick(Input::Idle), Outcome::Lost);
    assert_eq!(b.tick(Input::Idle), Outcome::Lost);
    assert_eq!(a, b);
}

#[test]
fn finished_game_does_not_change() {
    let mut g = Game {
        score: 3,
        dino_y: -5,
        dino_velocity: 1,
        cactus_x: RUNNER_COLUMN,
        game_over: true,
    };
    let before = g;
    for _ in 0..50 {
        g.update();
        assert_eq!(g, before);
    }
    assert_eq!(g.tick(Input::Idle), Outcome::Lost);
    assert_eq!(g.score, 3);
    assert_eq!(g.dino_y, -5);
    assert_eq!(g.cactus_x, RUNNER_COLUMN);
}

#[test]
fn quit_leaves_state_unchanged() {
    let mut g = Game::new();
    g.tick(Input::Jump);
    let before = g;
    assert_eq!(g.tick(Input::Quit), Outcome::Quit);
    assert_eq!(g, before);
}

#[test]
fn idle_run_ends_at_runner_column_with_no_score() {
    let mut g = Game::new();
    assert_eq!(g.cactus_x, 40);
    let mut ticks = 0;
    let mut outcome = Outcome::Running;
    while outcome == Outcome::Running {
        outcome = g.tick(Input::Idle);
        ticks += 1;
    }
    assert_eq!(outcome, Outcome::Lost);
    assert_eq!(ticks, 35);
    assert_eq!(g.cactus_x, RUNNER_COLUMN);
    assert_eq!(g.dino_y, 0);
    assert!(g.game_over);
    assert_eq!(g.score, 0);
}

#[test]
fn jump_one_column_early_clears_and_scores_later() {
    let mut g = Game::new();
    run_idle_until_column(&mut g, RUNNER_COLUMN + 1);
    assert_eq!(g.dino_y, 0);
    assert_eq!(g.tick(Input::Jump), Outcome::Running);
    assert_eq!(g.cactus_x, RUNNER_COLUMN);
    assert!(g.dino_y < 0);
    assert!(!g.game_over);
    let mut ticks = 0;
    while g.score == 0 {
        assert_eq!(g.tick(Input::Idle), Outcome::Running);
        ticks += 1;
    }
    assert_eq!(ticks, 6);
    assert_eq!(g.score, 1);
    assert_eq!(g.cactus_x, SPAWN_COLUMN);
    assert!(!g.game_over);
}

#[test]
fn keys_decode_to_inputs() {
    assert_eq!(decode_key(Key::Char(' ')), Input::Jump);
    assert_eq!(decode_key(Key::Up), Input::Jump);
    assert_eq!(decode_key(Key::Char('q')), Input::Quit);
    assert_eq!(decode_key(Key::Esc), Input::Quit);
    assert_eq!(decode_key(Key::Char('x')), Input::Idle);
    assert_eq!(decode_key(Key::Char('Q')), Input::Idle);
    assert_eq!(decode_key(Key::Other), Input::Idle);
}
