use vstd::prelude::*;

use crate::input_type::{InputError, KEYBOARD_TAG};
use crate::key::Key;
use crate::keyboard_snapshot::down;
use crate::keyboard_input::{codes_in_catalog, code_capacity, decoded, KeyboardInput};
use crate::keyboard_snapshot::{empty_history, pushed, Frames, KeyboardSnapshot, INPUT_BUFFER_LENGTH};
use crate::pong::{
    clamped, fixed_update, input_applied, lemma_step_keeps_play, playing, process_inputs, reset_state,
    scored, start, step, update, Ball, GameState, Paddle, PongConfig, Vector2, FIELD, MAX_SPEED,
};

verus! {

/// Length of the host's keyboard buffer: a tag byte and nine bytes of key bits.
pub const INPUT_BUFFER_SIZE: usize = 10;

/// Milliseconds of simulated time per fixed physics sub-step.
pub const STEP_MS: u64 = 16;

/// Most milliseconds one tick may add to the accumulator, so that a stalled
/// host does not trigger an unbounded catch-up.
pub const MAX_ELAPSED_MS: u64 = 250;

/// The state after `n` physics sub-steps.
pub open spec fn run_steps(st: GameState, cfg: PongConfig, n: nat) -> GameState
    decreases n,
{
    if n == 0 {
        st
    } else {
        step(run_steps(st, cfg, (n - 1) as nat), cfg)
    }
}

/// Milliseconds banked after a tick: what was left over plus the elapsed
/// time, the latter capped at `MAX_ELAPSED_MS`.
pub open spec fn banked(acc: u64, elapsed: u64) -> int {
    acc + if elapsed > MAX_ELAPSED_MS { MAX_ELAPSED_MS as int } else { elapsed as int }
}

/// The state after one tick: the paddles follow the keys of the newest frame
/// of `h`, one physics sub-step runs for each full `STEP_MS` banked, and then
/// scoring is checked.
pub open spec fn advanced(st: GameState, cfg: PongConfig, h: Frames, acc: u64, elapsed: u64) -> GameState {
    scored(run_steps(input_applied(st, cfg, h), cfg, (banked(acc, elapsed) / STEP_MS as int) as nat), cfg)
}

/// Sub-steps move neither paddle but by the clamp, and leave the scores as
/// they are.
proof fn lemma_run_steps_paddles(st: GameState, cfg: PongConfig, n: nat)
    requires
        n >= 1,
        0 <= st.p0.h <= FIELD,
    ensures
        run_steps(st, cfg, n).p0 == clamped(st.p0),
        run_steps(st, cfg, n).p0_score == st.p0_score,
        run_steps(st, cfg, n).p1_score == st.p1_score,
    decreases n,
{
    let prev = run_steps(st, cfg, (n - 1) as nat);
    if n > 1 {
        lemma_run_steps_paddles(st, cfg, (n - 1) as nat);
    } else {
        assert(prev == st);
    }
    assert(run_steps(st, cfg, n) == step(prev, cfg));
}

/// While the key that moves paddle 0 down is held (and the one that moves it
/// up is not), each tick that runs at least one sub-step and scores no point
/// moves paddle 0 down by the paddle speed, clamped at the bottom edge
/// `FIELD - h`.
pub proof fn lemma_held_key_moves_paddle(st: GameState, cfg: PongConfig, h: Frames, acc: u64, elapsed: u64)
    requires
        0 < cfg.paddle_speed,
        0 <= st.p0.h <= FIELD,
        0 <= st.p0.y <= FIELD - st.p0.h,
        st.p0_score < u64::MAX,
        st.p1_score < u64::MAX,
        down(h, Key::ArrowDown),
        !down(h, Key::ArrowUp),
        banked(acc, elapsed) >= STEP_MS,
    ensures
        advanced(st, cfg, h, acc, elapsed).p0_score == st.p0_score && advanced(st, cfg, h, acc, elapsed).p1_score
            == st.p1_score ==> advanced(st, cfg, h, acc, elapsed).p0.y == if st.p0.y + cfg.paddle_speed
            > FIELD - st.p0.h {
            FIELD - st.p0.h
        } else {
            st.p0.y + cfg.paddle_speed
        },
{
    let moved = input_applied(st, cfg, h);
    let n = (banked(acc, elapsed) / STEP_MS as int) as nat;
    lemma_run_steps_paddles(moved, cfg, n);
}

/// The game: its state, its speeds, the history of keyboard input, and the
/// milliseconds not yet spent on physics sub-steps.
pub struct Game {
    input_buffer: [u8; INPUT_BUFFER_SIZE],
    keyboard: KeyboardSnapshot,
    state: GameState,
    config: PongConfig,
    accumulator: u64,
}

impl Game {
    /// A well-formed game holds a full history of frames, and its parts
    /// agree.
    pub open spec fn wf(&self) -> bool {
        &&& self.spec_history().len() == INPUT_BUFFER_LENGTH
        &&& self.parts_agree()
    }

    /// The history is well formed, the speeds are in range, less than one
    /// sub-step is banked, and the state has the shape of a running game.
    pub closed spec fn parts_agree(&self) -> bool {
        &&& self.keyboard.wf()
        &&& self.config.wf()
        &&& self.accumulator < STEP_MS
        &&& playing(self.state, self.config, 0)
    }

    pub closed spec fn spec_state(&self) -> GameState {
        self.state
    }

    pub closed spec fn spec_config(&self) -> PongConfig {
        self.config
    }

    pub closed spec fn spec_history(&self) -> Frames {
        self.keyboard@
    }

    pub closed spec fn spec_accumulator(&self) -> u64 {
        self.accumulator
    }

    pub closed spec fn spec_input_buffer(&self) -> Seq<u8> {
        self.input_buffer@
    }

    /// A game at the start of its first round, with no score, no input and
    /// the default speeds.
    pub fn new() -> (r: Game)
        ensures
            r.wf(),
            r.spec_config() == (PongConfig { ball_speed: 160, paddle_speed: 100 }),
            r.spec_state() == reset_state(r.spec_state(), r.spec_config()),
            r.spec_state().p0_score == 0,
            r.spec_state().p1_score == 0,
            r.spec_history() == empty_history(),
            r.spec_accumulator() == 0,
            r.spec_input_buffer() == Seq::new(INPUT_BUFFER_SIZE as nat, |i: int| 0u8),
    {
        let paddle = Paddle { x: 0, y: 0, w: 0, h: 0 };
        let mut game = Game {
            input_buffer: [0u8; INPUT_BUFFER_SIZE],
            keyboard: KeyboardSnapshot::new(),
            state: GameState {
                p0: paddle,
                p1: paddle,
                ball: Ball { x: 0, y: 0, w: 0, h: 0, v: Vector2 { x: 0, y: 0 } },
                p0_score: 0,
                p1_score: 0,
            },
            config: PongConfig::default(),
            accumulator: 0,
        };
        start(&mut game.state, &game.config);
        assert(game.input_buffer@ =~= Seq::new(INPUT_BUFFER_SIZE as nat, |i: int| 0u8));
        game
    }

    /// The current state.
    pub fn state(&self) -> (r: GameState)
        ensures
            r == self.spec_state(),
    {
        self.state
    }

    /// The buffer that [`Game::tick`] decodes.
    pub fn input_buffer(&self) -> (r: [u8; INPUT_BUFFER_SIZE])
        ensures
            r@ == self.spec_input_buffer(),
    {
        self.input_buffer
    }

    /// Replaces the buffer that [`Game::tick`] decodes.
    pub fn set_input_buffer(&mut self, buffer: [u8; INPUT_BUFFER_SIZE])
        ensures
            final(self).spec_input_buffer() == buffer@,
            final(self).spec_state() == old(self).spec_state(),
            final(self).spec_config() == old(self).spec_config(),
            final(self).spec_history() == old(self).spec_history(),
            final(self).spec_accumulator() == old(self).spec_accumulator(),
            old(self).wf() ==> final(self).wf(),
    {
        self.input_buffer = buffer;
    }

    /// Runs one tick on the game's own input buffer; see [`Game::unity_tick`].
    pub fn tick(&mut self, frame: u64, elapsed_ms: u64) -> (r: Result<GameState, InputError>)
        requires
            old(self).wf(),
        ensures
            final(self).wf(),
            r is Ok <==> old(self).spec_input_buffer()[0] == KEYBOARD_TAG,
            !(r is Ok) ==> r == Err::<GameState, InputError>(
                InputError::InvalidInputKind { expected: KEYBOARD_TAG, actual: old(self).spec_input_buffer()[0] },
            ) && *final(self) == *old(self),
            r is Ok ==> final(self).ticked(*old(self), decoded(old(self).spec_input_buffer()), elapsed_ms)
                && r == Ok::<GameState, InputError>(final(self).spec_state()),
    {
        let buffer = self.input_buffer;
        proof {
            assert(code_capacity(buffer@) == 72);
        }
        self.unity_tick(buffer.as_slice(), frame, elapsed_ms)
    }

    /// `self` is `before` after a tick whose input decoded to `keys` and
    /// which reported `elapsed` milliseconds: the frame was added to the
    /// history, the state advanced, the remainder banked, and no score went
    /// down.
    pub open spec fn ticked(&self, before: Game, keys: Seq<Key>, elapsed: u64) -> bool {
        &&& self.spec_history() == pushed(before.spec_history(), keys)
        &&& self.spec_state() == advanced(
            before.spec_state(),
            before.spec_config(),
            self.spec_history(),
            before.spec_accumulator(),
            elapsed,
        )
        &&& self.spec_accumulator() == banked(before.spec_accumulator(), elapsed) % STEP_MS as int
        &&& before.spec_state().p0_score <= self.spec_state().p0_score
        &&& before.spec_state().p1_score <= self.spec_state().p1_score
        &&& self.spec_config() == before.spec_config()
        &&& self.spec_input_buffer() == before.spec_input_buffer()
    }

    /// Runs one tick: decodes `input_buffer` into a frame of keys and adds it
    /// to the history, moves the paddles by the keys that are down, banks
    /// `elapsed_ms` (at most `MAX_ELAPSED_MS` of it) and runs one physics
    /// sub-step per full `STEP_MS` banked, then checks for a point. Returns
    /// the new state. A buffer not tagged as keyboard input is refused and
    /// leaves the game unchanged. The frame counter is advisory.
    pub fn unity_tick(&mut self, input_buffer: &[u8], frame: u64, elapsed_ms: u64) -> (r: Result<GameState, InputError>)
        requires
            old(self).wf(),
            input_buffer@.len() >= 1,
            input_buffer@[0] == KEYBOARD_TAG ==> codes_in_catalog(input_buffer@),
        ensures
            final(self).wf(),
            r is Ok <==> input_buffer@[0] == KEYBOARD_TAG,
            !(r is Ok) ==> r == Err::<GameState, InputError>(
                InputError::InvalidInputKind { expected: KEYBOARD_TAG, actual: input_buffer@[0] },
            ) && *final(self) == *old(self),
            r is Ok ==> final(self).ticked(*old(self), decoded(input_buffer@), elapsed_ms)
                && r == Ok::<GameState, InputError>(final(self).spec_state()),
    {
        let keyboard_input = match KeyboardInput::from_bytes(input_buffer) {
            Ok(k) => k,
            Err(e) => {
                return Err(e);
            },
        };
        self.apply_inputs(keyboard_input);
        self.shared_tick(frame, elapsed_ms);
        Ok(self.state)
    }

    fn apply_inputs(&mut self, keyboard_input: KeyboardInput)
        requires
            old(self).wf(),
        ensures
            final(self).keyboard@ == pushed(old(self).keyboard@, keyboard_input@),
            final(self).keyboard.wf(),
            final(self).state == input_applied(old(self).state, old(self).config, final(self).keyboard@),
            final(self).config == old(self).config,
            final(self).accumulator == old(self).accumulator,
            final(self).input_buffer == old(self).input_buffer,
            playing(final(self).state, final(self).config, 0),
    {
        self.keyboard.add_input(keyboard_input);
        process_inputs(&mut self.state, &self.config, &self.keyboard);
    }

    fn shared_tick(&mut self, frame: u64, elapsed_ms: u64)
        requires
            old(self).keyboard.wf(),
            old(self).config.wf(),
            old(self).accumulator < STEP_MS,
            playing(old(self).state, old(self).config, 0),
        ensures
            final(self).wf(),
            final(self).state == scored(
                run_steps(
                    old(self).state,
                    old(self).config,
                    (banked(old(self).accumulator, elapsed_ms) / STEP_MS as int) as nat,
                ),
                old(self).config,
            ),
            final(self).accumulator == banked(old(self).accumulator, elapsed_ms) % STEP_MS as int,
            old(self).state.p0_score <= final(self).state.p0_score,
            old(self).state.p1_score <= final(self).state.p1_score,
            final(self).keyboard == old(self).keyboard,
            final(self).config == old(self).config,
            final(self).input_buffer == old(self).input_buffer,
    {
        let add = if elapsed_ms > MAX_ELAPSED_MS {
            MAX_ELAPSED_MS
        } else {
            elapsed_ms
        };
        let mut acc: u64 = self.accumulator + add;
        let mut state = self.state;
        let ghost st0 = self.state;
        let ghost total = acc as int;
        let ghost cfg = self.config;
        let ghost mut n: nat = 0;
        while acc >= STEP_MS
            invariant
                cfg == self.config,
                cfg.wf(),
                total < STEP_MS + MAX_ELAPSED_MS,
                acc == total - STEP_MS * n,
                n <= 16,
                state == run_steps(st0, cfg, n),
                state.p0_score == st0.p0_score && state.p1_score == st0.p1_score,
                playing(state, cfg, n * MAX_SPEED),
            decreases acc,
        {
            proof {
                lemma_step_keeps_play(state, cfg, n * MAX_SPEED);
            }
            fixed_update(&mut state, &self.config);
            acc = acc - STEP_MS;
            proof {
                n = n + 1;
            }
        }
        assert(n == total / STEP_MS as int && acc == total % STEP_MS as int);
        update(&mut state, &self.config);
        self.state = state;
        self.accumulator = acc;
    }
}

} // verus!
