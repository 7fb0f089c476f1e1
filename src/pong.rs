use vstd::prelude::*;

use crate::key::Key;
use crate::keyboard_snapshot::{down, Frames, KeyboardSnapshot};

verus! {

// Positions, sizes and speeds are fixed-point: hundredths of a playfield
// unit. The playfield spans 0..FIELD on both axes, origin at the top left.
/// Side of the square playfield.
pub const FIELD: i64 = 10_000;

/// Width of a paddle.
pub const PADDLE_W: i64 = 300;

/// Height of a paddle.
pub const PADDLE_H: i64 = 1_500;

/// Width and height of the ball.
pub const BALL_SIZE: i64 = 300;

/// Vertical position of a paddle at the start of a round: centred, `FIELD / 2 - PADDLE_H / 2`.
pub const PADDLE_START_Y: i64 = 4_250;

/// Horizontal position of the right paddle, against the right edge.
pub const RIGHT_PADDLE_X: i64 = 9_700;

/// Position of the ball on both axes at the start of a round: centred, `FIELD / 2 - BALL_SIZE / 2`.
pub const BALL_START: i64 = 4_850;

/// Largest speed a configuration may hold.
pub const MAX_SPEED: i64 = 1_000;

/// Bound on the coordinates that the single-step functions accept, far
/// outside the playfield.
pub const COORD_LIMIT: i64 = 1_000_000_000_000;

/// A velocity, per fixed sub-step.
#[derive(Clone, Copy, Debug, PartialEq, Eq, Structural)]
pub struct Vector2 {
    pub x: i64,
    pub y: i64,
}

/// An axis-aligned rectangle.
#[derive(Clone, Copy, Debug, PartialEq, Eq, Structural)]
pub struct Rect {
    pub x: i64,
    pub y: i64,
    pub w: i64,
    pub h: i64,
}

/// A paddle: its top-left corner and its size.
#[derive(Clone, Copy, Debug, PartialEq, Eq, Structural)]
pub struct Paddle {
    pub x: i64,
    pub y: i64,
    pub w: i64,
    pub h: i64,
}

/// The ball: its top-left corner, its size and its velocity.
#[derive(Clone, Copy, Debug, PartialEq, Eq, Structural)]
pub struct Ball {
    pub x: i64,
    pub y: i64,
    pub w: i64,
    pub h: i64,
    pub v: Vector2,
}

/// Everything the host renders: two paddles, the ball and the two scores.
#[derive(Clone, Copy, Debug, PartialEq, Eq, Structural)]
pub struct GameState {
    pub p0: Paddle,
    pub p1: Paddle,
    pub ball: Ball,
    pub p0_score: u64,
    pub p1_score: u64,
}

/// The two speeds that drive all motion.
#[derive(Clone, Copy, Debug, PartialEq, Eq, Structural)]
pub struct PongConfig {
    pub ball_speed: i64,
    pub paddle_speed: i64,
}

impl PongConfig {
    /// Both speeds are positive and at most `MAX_SPEED`.
    pub open spec fn wf(&self) -> bool {
        &&& 0 < self.ball_speed <= MAX_SPEED
        &&& 0 < self.paddle_speed <= MAX_SPEED
    }
}

impl Default for PongConfig {
    /// A ball speed of 1.6 and a paddle speed of 1.0 playfield units per step.
    fn default() -> (r: Self)
        ensures
            r == (PongConfig { ball_speed: 160, paddle_speed: 100 }),
    {
        PongConfig { ball_speed: 160, paddle_speed: 100 }
    }
}

/// `v` lies within `COORD_LIMIT` of the origin.
pub open spec fn in_range(v: int) -> bool {
    -COORD_LIMIT <= v <= COORD_LIMIT
}

impl Rect {
    /// All four fields lie within `COORD_LIMIT`.
    pub open spec fn bounded(self) -> bool {
        in_range(self.x as int) && in_range(self.y as int) && in_range(self.w as int) && in_range(self.h as int)
    }
}

/// The two rectangles overlap: their edges strictly overlap on both axes.
pub open spec fn overlaps(a: Rect, b: Rect) -> bool {
    &&& a.x < b.x + b.w
    &&& a.x + a.w > b.x
    &&& a.y < b.y + b.h
    &&& a.y + a.h > b.y
}

/// Whether two rectangles overlap. The sums are taken in `i128`, where no
/// two `i64` values can overflow.
pub fn is_colliding(a: Rect, b: Rect) -> (r: bool)
    ensures
        r == overlaps(a, b),
{
    let (ax, ay, aw, ah) = (a.x as i128, a.y as i128, a.w as i128, a.h as i128);
    let (bx, by, bw, bh) = (b.x as i128, b.y as i128, b.w as i128, b.h as i128);
    ax < bx + bw && ax + aw > bx && ay < by + bh && ah + ay > by
}

impl Paddle {
    pub open spec fn spec_bounds(self) -> Rect {
        Rect { x: self.x, y: self.y, w: self.w, h: self.h }
    }

    /// The rectangle the paddle covers.
    #[verifier::when_used_as_spec(spec_bounds)]
    pub fn bounds(self) -> (r: Rect)
        ensures
            r == self.spec_bounds(),
    {
        Rect { x: self.x, y: self.y, w: self.w, h: self.h }
    }
}

/// Vertical velocity after the ball hits the paddle: up when the ball's
/// centre is above the paddle's upper third boundary, down when it is below
/// the lower third boundary, straight across otherwise. Both sides of each
/// comparison are scaled by 6, so the thirds and the half are exact.
pub open spec fn deflection(ball: Ball, paddle: Paddle, speed: i64) -> i64 {
    if 6 * ball.y + 3 * ball.h < 6 * paddle.y + 2 * paddle.h {
        (-speed) as i64
    } else if 6 * ball.y + 3 * ball.h > 6 * paddle.y + 4 * paddle.h {
        speed
    } else {
        0
    }
}

/// The ball after it is checked against `paddle`: on overlap its horizontal
/// velocity reverses and its vertical velocity is the deflection.
pub open spec fn collided(ball: Ball, paddle: Paddle, speed: i64) -> Ball {
    if overlaps(ball.bounds(), paddle.bounds()) {
        Ball { v: Vector2 { x: (-ball.v.x) as i64, y: deflection(ball, paddle, speed) }, ..ball }
    } else {
        ball
    }
}

impl Ball {
    pub open spec fn spec_bounds(self) -> Rect {
        Rect { x: self.x, y: self.y, w: self.w, h: self.h }
    }

    /// The rectangle the ball covers.
    #[verifier::when_used_as_spec(spec_bounds)]
    pub fn bounds(self) -> (r: Rect)
        ensures
            r == self.spec_bounds(),
    {
        Rect { x: self.x, y: self.y, w: self.w, h: self.h }
    }

    /// The ball's fields, velocity included, lie within `COORD_LIMIT`.
    pub open spec fn bounded(self) -> bool {
        self.bounds().bounded() && in_range(self.v.x as int) && in_range(self.v.y as int)
    }

    /// Resolves a hit on `paddle`: where the two overlap, the ball turns back
    /// horizontally and leaves up, down or straight across depending on
    /// which third of the paddle it struck.
    pub fn process_collisions(&mut self, paddle: Paddle, speed: i64)
        requires
            old(self).v.x > i64::MIN,
            speed > i64::MIN,
        ensures
            *final(self) == collided(*old(self), paddle, speed),
    {
        if !is_colliding(self.bounds(), paddle.bounds()) {
            return;
        }
        self.v.x = -self.v.x;
        // scaled by 6 in i128, where these sums cannot overflow
        let centre = 6 * (self.y as i128) + 3 * (self.h as i128);
        let py = 6 * (paddle.y as i128);
        let ph = paddle.h as i128;
        self.v.y = if centre < py + 2 * ph {
            -speed
        } else if centre > py + 4 * ph {
            speed
        } else {
            0
        };
    }
}

/// A ball moving right that hits a paddle turns left; it leaves straight
/// across from the middle third, up from the upper third and down from the
/// lower third.
pub proof fn lemma_reflection(ball: Ball, paddle: Paddle, speed: i64)
    requires
        speed > i64::MIN,
        paddle.h >= 0,
        overlaps(ball.bounds(), paddle.bounds()),
    ensures
        ball.v.x > 0 ==> collided(ball, paddle, speed).v.x < 0,
        6 * paddle.y + 2 * paddle.h <= 6 * ball.y + 3 * ball.h <= 6 * paddle.y + 4 * paddle.h
            ==> collided(ball, paddle, speed).v.y == 0,
        6 * ball.y + 3 * ball.h < 6 * paddle.y + 2 * paddle.h ==> collided(ball, paddle, speed).v.y == -speed,
        6 * ball.y + 3 * ball.h > 6 * paddle.y + 4 * paddle.h ==> collided(ball, paddle, speed).v.y == speed,
{
}

/// `v` limited to the range of `i64`.
pub open spec fn saturate(v: int) -> i64 {
    if v > i64::MAX {
        i64::MAX
    } else if v < i64::MIN {
        i64::MIN
    } else {
        v as i64
    }
}

/// `y + d`, saturating at the bounds of `i64`.
fn shift(y: i64, d: i64) -> (r: i64)
    requires
        d > i64::MIN,
    ensures
        r == saturate(y + d),
{
    if d > 0 && y > i64::MAX - d {
        i64::MAX
    } else if d < 0 && y < i64::MIN - d {
        i64::MIN
    } else {
        y + d
    }
}

/// The state after the paddles follow the keys down in the most recent frame
/// of `h`: the down and up arrows move paddle 0, W and S move paddle 1, each
/// by the paddle speed. The move saturates at the bounds of `i64`; the
/// physics step clamps paddles to the playfield.
pub open spec fn input_applied(st: GameState, cfg: PongConfig, h: Frames) -> GameState {
    let s = cfg.paddle_speed as int;
    let y0a = if down(h, Key::ArrowDown) { saturate(st.p0.y + s) } else { st.p0.y };
    let y0 = if down(h, Key::ArrowUp) { saturate(y0a - s) } else { y0a };
    let y1a = if down(h, Key::KeyW) { saturate(st.p1.y - s) } else { st.p1.y };
    let y1 = if down(h, Key::KeyS) { saturate(y1a + s) } else { y1a };
    GameState { p0: Paddle { y: y0, ..st.p0 }, p1: Paddle { y: y1, ..st.p1 }, ..st }
}

/// Moves the paddles by the keys that are down in the most recent frame.
pub fn process_inputs(state: &mut GameState, config: &PongConfig, keyboard: &KeyboardSnapshot)
    requires
        0 < config.paddle_speed,
        keyboard.wf(),
    ensures
        *final(state) == input_applied(*old(state), *config, keyboard@),
{
    let s = config.paddle_speed;
    if keyboard.is_key(Key::ArrowDown) {
        state.p0.y = shift(state.p0.y, s);
    }
    if keyboard.is_key(Key::ArrowUp) {
        state.p0.y = shift(state.p0.y, -s);
    }
    if keyboard.is_key(Key::KeyW) {
        state.p1.y = shift(state.p1.y, -s);
    }
    if keyboard.is_key(Key::KeyS) {
        state.p1.y = shift(state.p1.y, s);
    }
}

/// The paddle moved into the playfield: its `y` clamped to `0..=FIELD - h`.
pub open spec fn clamped(p: Paddle) -> Paddle {
    Paddle {
        y: if p.y < 0 {
            0
        } else if p.y > FIELD - p.h {
            (FIELD - p.h) as i64
        } else {
            p.y
        },
        ..p
    }
}

/// The ball with its vertical velocity reversed when it is above the top
/// wall or below the bottom one.
pub open spec fn bounced(b: Ball) -> Ball {
    if b.y < 0 || b.y > FIELD - b.h {
        Ball { v: Vector2 { y: (-b.v.y) as i64, ..b.v }, ..b }
    } else {
        b
    }
}

/// The ball after one sub-step of motion at its velocity.
pub open spec fn moved(b: Ball) -> Ball {
    Ball { x: (b.x + b.v.x) as i64, y: (b.y + b.v.y) as i64, ..b }
}

/// One fixed physics sub-step: clamp the paddles, bounce off the walls,
/// resolve hits on paddle 0 and then paddle 1, and move the ball.
pub open spec fn step(st: GameState, cfg: PongConfig) -> GameState {
    let p0 = clamped(st.p0);
    let p1 = clamped(st.p1);
    let b = moved(collided(collided(bounced(st.ball), p0, cfg.ball_speed), p1, cfg.ball_speed));
    GameState { p0, p1, ball: b, ..st }
}

/// A paddle that the physics step can take: its `x` and `w` within
/// `COORD_LIMIT`, and a height that fits in the playfield. Its `y` may be
/// anything.
pub open spec fn paddle_ready(p: Paddle) -> bool {
    in_range(p.x as int) && in_range(p.w as int) && 0 <= p.h <= FIELD
}

/// A state that the physics step can take.
pub open spec fn step_ready(st: GameState, cfg: PongConfig) -> bool {
    &&& paddle_ready(st.p0)
    &&& paddle_ready(st.p1)
    &&& st.ball.bounded()
    &&& in_range(cfg.ball_speed as int)
}

fn clamp_paddle(p: &mut Paddle)
    requires
        0 <= old(p).h <= FIELD,
    ensures
        *final(p) == clamped(*old(p)),
{
    if p.y < 0 {
        p.y = 0;
    } else if p.y > FIELD - p.h {
        p.y = FIELD - p.h;
    }
}

/// Runs one fixed physics sub-step on `state`.
pub fn fixed_update(state: &mut GameState, config: &PongConfig)
    requires
        step_ready(*old(state), *config),
    ensures
        *final(state) == step(*old(state), *config),
{
    clamp_paddle(&mut state.p0);
    clamp_paddle(&mut state.p1);
    if state.ball.y < 0 || state.ball.y > FIELD - state.ball.h {
        state.ball.v.y = -state.ball.v.y;
    }
    let p0 = state.p0;
    let p1 = state.p1;
    state.ball.process_collisions(p0, config.ball_speed);
    state.ball.process_collisions(p1, config.ball_speed);
    state.ball.x = state.ball.x + state.ball.v.x;
    state.ball.y = state.ball.y + state.ball.v.y;
}

/// The state at the start of a round: paddles centred vertically at either
/// edge, the ball in the centre serving right at the ball speed. Scores are
/// kept.
pub open spec fn reset_state(st: GameState, cfg: PongConfig) -> GameState {
    GameState {
        p0: Paddle { x: 0, y: PADDLE_START_Y, w: PADDLE_W, h: PADDLE_H },
        p1: Paddle { x: RIGHT_PADDLE_X, y: PADDLE_START_Y, w: PADDLE_W, h: PADDLE_H },
        ball: Ball {
            x: BALL_START,
            y: BALL_START,
            w: BALL_SIZE,
            h: BALL_SIZE,
            v: Vector2 { x: cfg.ball_speed, y: 0 },
        },
        ..st
    }
}

fn reset(state: &mut GameState, config: &PongConfig)
    ensures
        *final(state) == reset_state(*old(state), *config),
{
    state.p0 = Paddle { x: 0, y: PADDLE_START_Y, w: PADDLE_W, h: PADDLE_H };
    state.p1 = Paddle { x: RIGHT_PADDLE_X, y: PADDLE_START_Y, w: PADDLE_W, h: PADDLE_H };
    state.ball = Ball {
        x: BALL_START,
        y: BALL_START,
        w: BALL_SIZE,
        h: BALL_SIZE,
        v: Vector2 { x: config.ball_speed, y: 0 },
    };
}

/// Starts the first round.
pub fn start(state: &mut GameState, config: &PongConfig)
    ensures
        *final(state) == reset_state(*old(state), *config),
{
    reset(state, config);
}

/// The state after the scoring check: a ball past the left edge scores for
/// player 1, one past the right edge for player 0, and either starts a new
/// round. Scores saturate at `u64::MAX`.
pub open spec fn scored(st: GameState, cfg: PongConfig) -> GameState {
    if st.ball.x < 0 {
        reset_state(GameState { p1_score: st.p1_score.saturating_add(1), ..st }, cfg)
    } else if st.ball.x + st.ball.w > FIELD {
        reset_state(GameState { p0_score: st.p0_score.saturating_add(1), ..st }, cfg)
    } else {
        st
    }
}

/// Awards a point when the ball has left the playfield on the left or right.
pub fn update(state: &mut GameState, config: &PongConfig)
    requires
        in_range(old(state).ball.x as int),
        in_range(old(state).ball.w as int),
    ensures
        *final(state) == scored(*old(state), *config),
{
    if state.ball.x < 0 {
        state.p1_score = state.p1_score.saturating_add(1);
        reset(state, config);
    } else if state.ball.x + state.ball.w > FIELD {
        state.p0_score = state.p0_score.saturating_add(1);
        reset(state, config);
    }
}

/// A paddle above the bottom edge stays within the playfield: one step
/// clamps it to exactly `FIELD - h`.
pub proof fn lemma_paddle_clamp(st: GameState, cfg: PongConfig)
    requires
        0 <= st.p0.h <= FIELD,
        st.p0.y > FIELD - st.p0.h,
    ensures
        step(st, cfg).p0.y == FIELD - st.p0.h,
{
}

/// A ball past the left edge gives player 1 exactly one point, a ball past
/// the right edge gives player 0 one, and either puts the ball back in the
/// centre serving right at the ball speed.
pub proof fn lemma_scoring(st: GameState, cfg: PongConfig)
    requires
        st.p0_score < u64::MAX,
        st.p1_score < u64::MAX,
        st.ball.x < 0 || st.ball.x + st.ball.w > FIELD,
    ensures
        st.ball.x < 0 ==> scored(st, cfg).p1_score == st.p1_score + 1 && scored(st, cfg).p0_score
            == st.p0_score,
        st.ball.x >= 0 ==> scored(st, cfg).p0_score == st.p0_score + 1 && scored(st, cfg).p1_score
            == st.p1_score,
        scored(st, cfg).ball.x == FIELD / 2 - BALL_SIZE / 2,
        scored(st, cfg).ball.y == FIELD / 2 - BALL_SIZE / 2,
        scored(st, cfg).ball.v == (Vector2 { x: cfg.ball_speed, y: 0 }),
{
}

/// The ball's vertical position stays between `-BALL_SIZE - s` and
/// `FIELD + s`, and so does its position one sub-step back; its vertical
/// speed is at most `s`.
pub open spec fn ball_y_ok(y: int, vy: int, s: int) -> bool {
    &&& -BALL_SIZE - s <= y <= FIELD + s
    &&& -BALL_SIZE - s <= y - vy <= FIELD + s
    &&& -s <= vy <= s
}

/// The shape every state of a running game keeps: paddles and ball of the
/// fixed sizes, paddles at the edges, velocities bounded by the ball speed,
/// the ball vertically near the playfield, and horizontally inside it up to
/// `slack`.
pub open spec fn playing(st: GameState, cfg: PongConfig, slack: int) -> bool {
    let s = cfg.ball_speed as int;
    &&& st.p0.x == 0 && st.p0.w == PADDLE_W && st.p0.h == PADDLE_H
    &&& st.p1.x == RIGHT_PADDLE_X && st.p1.w == PADDLE_W && st.p1.h == PADDLE_H
    &&& st.ball.w == BALL_SIZE && st.ball.h == BALL_SIZE
    &&& -slack <= st.ball.x && st.ball.x + BALL_SIZE <= FIELD + slack
    &&& -s <= st.ball.v.x <= s
    &&& ball_y_ok(st.ball.y as int, st.ball.v.y as int, s)
}

/// One physics step keeps a game's shape, with `MAX_SPEED` more horizontal
/// slack.
pub proof fn lemma_step_keeps_play(st: GameState, cfg: PongConfig, slack: int)
    requires
        cfg.wf(),
        playing(st, cfg, slack),
        0 <= slack <= 100 * MAX_SPEED,
    ensures
        step_ready(st, cfg),
        playing(step(st, cfg), cfg, slack + MAX_SPEED),
{
}

} // verus!
