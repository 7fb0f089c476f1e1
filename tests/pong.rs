use pogp::{
    fixed_update, is_colliding, process_inputs, start, update, Ball, Game, GameState, InputError,
    Key, KeyboardInput, KeyboardSnapshot, Paddle, PongConfig, Rect, Vector2, BALL_SIZE, FIELD,
    InputType, INPUT_BUFFER_SIZE, KEYBOARD_TAG, PADDLE_H,
};

fn config() -> PongConfig {
    PongConfig::default()
}

fn fresh_state() -> GameState {
    let paddle = Paddle { x: 0, y: 0, w: 0, h: 0 };
    let mut state = GameState {
        p0: paddle,
        p1: paddle,
        ball: Ball { x: 0, y: 0, w: 0, h: 0, v: Vector2 { x: 0, y: 0 } },
        p0_score: 0,
        p1_score: 0,
    };
    start(&mut state, &config());
    state
}

fn right_paddle() -> Paddle {
    Paddle { x: 9_700, y: 4_250, w: 300, h: 1_500 }
}

fn ball_at(x: i64, y: i64, vx: i64) -> Ball {
    Ball { x, y, w: BALL_SIZE, h: BALL_SIZE, v: Vector2 { x: vx, y: 0 } }
}

#[test]
fn default_speeds() {
    let c = config();
    assert_eq!(c.ball_speed, 160);
    assert_eq!(c.paddle_speed, 100);
}

#[test]
fn start_centres_everything() {
    let s = fresh_state();
    assert_eq!(s.p0, Paddle { x: 0, y: 4_250, w: 300, h: 1_500 });
    assert_eq!(s.p1, Paddle { x: 9_700, y: 4_250, w: 300, h: 1_500 });
    assert_eq!(s.ball, Ball { x: 4_850, y: 4_850, w: 300, h: 300, v: Vector2 { x: 160, y: 0 } });
}

#[test]
fn paddle_below_field_is_clamped_by_one_step() {
    let mut s = fresh_state();
    s.p0.y = 20_000;
    fixed_update(&mut s, &config());
    assert_eq!(s.p0.y, FIELD - PADDLE_H);
    assert_eq!(s.p0.y, 8_500);
}

#[test]
fn paddle_above_field_is_clamped_to_zero() {
    let mut s = fresh_state();
    s.p1.y = -250;
    fixed_update(&mut s, &config());
    assert_eq!(s.p1.y, 0);
}

#[test]
fn step_moves_ball_by_its_velocity() {
    let mut s = fresh_state();
    s.ball.v = Vector2 { x: 160, y: -40 };
    fixed_update(&mut s, &config());
    assert_eq!(s.ball.x, 5_010);
    assert_eq!(s.ball.y, 4_810);
}

#[test]
fn ball_past_top_wall_bounces() {
    let mut s = fresh_state();
    s.ball.y = -5;
    s.ball.v = Vector2 { x: 160, y: -20 };
    fixed_update(&mut s, &config());
    assert_eq!(s.ball.v.y, 20);
    assert_eq!(s.ball.y, 15);
}

#[test]
fn ball_past_bottom_wall_bounces() {
    let mut s = fresh_state();
    s.ball.y = FIELD - BALL_SIZE + 1;
    s.ball.v = Vector2 { x: 160, y: 30 };
    fixed_update(&mut s, &config());
    assert_eq!(s.ball.v.y, -30);
}

#[test]
fn centre_hit_goes_straight_back() {
    let mut b = ball_at(9_500, 4_850, 160);
    b.process_collisions(right_paddle(), 160);
    assert!(b.v.x < 0);
    assert_eq!(b.v, Vector2 { x: -160, y: 0 });
}

#[test]
fn top_third_hit_goes_up() {
    let mut b = ball_at(9_500, 4_250, 160);
    b.process_collisions(right_paddle(), 160);
    assert_eq!(b.v, Vector2 { x: -160, y: -160 });
}

#[test]
fn bottom_third_hit_goes_down() {
    let mut b = ball_at(9_500, 5_500, 160);
    b.process_collisions(right_paddle(), 160);
    assert_eq!(b.v, Vector2 { x: -160, y: 160 });
}

#[test]
fn miss_leaves_ball_alone() {
    let mut b = ball_at(5_000, 4_850, 160);
    b.process_collisions(right_paddle(), 160);
    assert_eq!(b, ball_at(5_000, 4_850, 160));
}

#[test]
fn touching_edges_do_not_overlap() {
    let a = Rect { x: 0, y: 0, w: 100, h: 100 };
    let b = Rect { x: 100, y: 0, w: 100, h: 100 };
    let c = Rect { x: 99, y: 99, w: 100, h: 100 };
    assert!(!is_colliding(a, b));
    assert!(is_colliding(a, c));
    assert!(is_colliding(c, b));
}

#[test]
fn ball_past_left_edge_scores_for_player_one() {
    let mut s = fresh_state();
    s.ball.x = -1;
    s.ball.v = Vector2 { x: -160, y: 160 };
    s.p0.y = 0;
    update(&mut s, &config());
    assert_eq!(s.p1_score, 1);
    assert_eq!(s.p0_score, 0);
    assert_eq!(s.ball.x, 5_000 - BALL_SIZE / 2);
    assert_eq!(s.ball.y, 5_000 - BALL_SIZE / 2);
    assert_eq!(s.ball.v, Vector2 { x: 160, y: 0 });
    assert_eq!(s.p0.y, 4_250);
}

#[test]
fn ball_past_right_edge_scores_for_player_zero() {
    let mut s = fresh_state();
    s.ball.x = FIELD - BALL_SIZE + 1;
    update(&mut s, &config());
    assert_eq!(s.p0_score, 1);
    assert_eq!(s.p1_score, 0);
    assert_eq!(s.ball, Ball { x: 4_850, y: 4_850, w: 300, h: 300, v: Vector2 { x: 160, y: 0 } });
}

#[test]
fn ball_inside_scores_nothing() {
    let mut s = fresh_state();
    s.ball.x = 0;
    update(&mut s, &config());
    s.ball.x = FIELD - BALL_SIZE;
    update(&mut s, &config());
    assert_eq!((s.p0_score, s.p1_score), (0, 0));
    assert_eq!(s.ball.x, FIELD - BALL_SIZE);
}

#[test]
fn score_saturates() {
    let mut s = fresh_state();
    s.p1_score = u64::MAX;
    s.ball.x = -1;
    update(&mut s, &config());
    assert_eq!(s.p1_score, u64::MAX);
}

#[test]
fn keys_move_paddles_by_paddle_speed() {
    let mut s = fresh_state();
    let mut keyboard = KeyboardSnapshot::new();
    keyboard.add_input(KeyboardInput::from_keys(vec![Key::ArrowDown, Key::KeyW]));
    process_inputs(&mut s, &config(), &keyboard);
    assert_eq!(s.p0.y, 4_350);
    assert_eq!(s.p1.y, 4_150);
    keyboard.add_input(KeyboardInput::from_keys(vec![Key::ArrowDown, Key::ArrowUp, Key::KeyS]));
    process_inputs(&mut s, &config(), &keyboard);
    assert_eq!(s.p0.y, 4_350);
    assert_eq!(s.p1.y, 4_250);
}

#[test]
fn paddle_move_saturates() {
    let mut s = fresh_state();
    s.p0.y = i64::MAX - 10;
    let mut keyboard = KeyboardSnapshot::new();
    keyboard.add_input(KeyboardInput::from_keys(vec![Key::ArrowDown]));
    process_inputs(&mut s, &config(), &keyboard);
    assert_eq!(s.p0.y, i64::MAX);
}

fn down_buffer() -> [u8; INPUT_BUFFER_SIZE] {
    let mut buffer = [0u8; INPUT_BUFFER_SIZE];
    buffer[0] = KEYBOARD_TAG;
    buffer[1] = 1 << Key::ArrowDown.code();
    buffer
}

#[test]
fn held_down_key_moves_paddle_to_bottom_and_stops() {
    let mut game = Game::new();
    game.set_input_buffer(down_buffer());
    let mut last = game.state().p0.y;
    for frame in 1..=50u64 {
        let state = game.tick(frame, 16).unwrap();
        if frame <= 42 {
            assert_eq!(state.p0.y, 4_250 + 100 * frame as i64);
            assert!(state.p0.y > last);
        } else {
            assert_eq!(state.p0.y, FIELD - PADDLE_H);
        }
        last = state.p0.y;
    }
    assert_eq!(game.state().p0.y, 8_500);
}

#[test]
fn short_ticks_bank_time_until_a_step() {
    let mut game = Game::new();
    let buffer = [KEYBOARD_TAG, 0, 0, 0, 0, 0, 0, 0, 0, 0];
    let s1 = game.unity_tick(&buffer, 1, 10).unwrap();
    assert_eq!(s1.ball.x, 4_850);
    let s2 = game.unity_tick(&buffer, 2, 10).unwrap();
    assert_eq!(s2.ball.x, 5_010);
    let s3 = game.unity_tick(&buffer, 3, 0).unwrap();
    assert_eq!(s3.ball.x, 5_010);
    let s4 = game.unity_tick(&buffer, 4, 12).unwrap();
    assert_eq!(s4.ball.x, 5_170);
}

#[test]
fn long_stall_is_capped() {
    let mut game = Game::new();
    let buffer = [KEYBOARD_TAG, 0];
    let s = game.unity_tick(&buffer, 1, 1_000_000).unwrap();
    // 250 ms give 15 sub-steps of 16 ms
    assert_eq!(s.ball.x, 4_850 + 15 * 160);
}

#[test]
fn malformed_buffer_is_refused_and_changes_nothing() {
    let mut game = Game::new();
    let before = game.state();
    let buffer = [3u8, 0xff];
    let result = game.unity_tick(&buffer, 1, 16);
    assert_eq!(result, Err(InputError::InvalidInputKind { expected: KEYBOARD_TAG, actual: 3 }));
    assert_eq!(game.state(), before);
    assert_eq!(game.tick(2, 16), Err(InputError::InvalidInputKind { expected: 4, actual: 0 }));
}

#[test]
fn rally_ends_with_a_point_and_a_new_round() {
    let mut game = Game::new();
    game.set_input_buffer(down_buffer());
    let mut frame = 0u64;
    while game.state().p1_score == 0 {
        frame += 1;
        assert!(frame < 1_000);
        game.tick(frame, 16).unwrap();
    }
    let s = game.state();
    assert_eq!(s.p1_score, 1);
    assert_eq!(s.p0_score, 0);
    assert_eq!(s.ball.v, Vector2 { x: 160, y: 0 });
}

#[test]
fn fast_paddle_moves_by_its_whole_speed() {
    let mut s = fresh_state();
    let fast = PongConfig { ball_speed: 160, paddle_speed: 50_000 };
    let mut keyboard = KeyboardSnapshot::new();
    keyboard.add_input(KeyboardInput::from_keys(vec![Key::ArrowUp, Key::KeyS]));
    process_inputs(&mut s, &fast, &keyboard);
    assert_eq!(s.p0.y, 4_250 - 50_000);
    assert_eq!(s.p1.y, 4_250 + 50_000);
}

#[test]
fn collision_far_from_origin() {
    let big = i64::MAX / 2;
    let paddle = Paddle { x: big, y: big, w: 300, h: 1_500 };
    let mut b = Ball { x: big - 100, y: big, w: BALL_SIZE, h: BALL_SIZE, v: Vector2 { x: 7, y: 0 } };
    b.process_collisions(paddle, 160);
    assert_eq!(b.v, Vector2 { x: -7, y: -160 });
    let far = Rect { x: i64::MAX - 10, y: i64::MAX - 10, w: i64::MAX, h: i64::MAX };
    let near = Rect { x: 0, y: 0, w: 10, h: 10 };
    assert!(!is_colliding(far, near));
    assert!(is_colliding(Rect { x: -5, y: -5, w: i64::MAX, h: i64::MAX }, near));
}

#[test]
fn game_refuses_wrong_tag_with_high_bits() {
    let mut game = Game::new();
    let before = game.state();
    let buffer = [InputType::Mouse as u8, 0xff, 0xff, 0xff, 0xff, 0xff, 0xff, 0xff, 0xff, 0xff, 0xff, 0xff];
    let result = game.unity_tick(&buffer, 1, 16);
    assert_eq!(result, Err(InputError::InvalidInputKind { expected: KEYBOARD_TAG, actual: 3 }));
    assert_eq!(game.state(), before);
    let next = game.unity_tick(&[KEYBOARD_TAG], 2, 16).unwrap();
    assert_eq!(next.ball.x, 4_850 + 160);
}
