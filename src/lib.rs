//! Deterministic simulation core of a two-paddle ball game: decoding of
//! keyboard input buffers, an input history with edge queries, and a
//! fixed-timestep physics step driven by an orchestrating `Game`.
mod game;
mod input_type;
mod key;
mod keyboard_input;
mod keyboard_snapshot;
mod pong;

pub use game::{Game, INPUT_BUFFER_SIZE, MAX_ELAPSED_MS, STEP_MS};
pub use input_type::{InputError, InputType, KEYBOARD_TAG};
pub use key::{Key, KEY_COUNT};
pub use keyboard_input::KeyboardInput;
pub use keyboard_snapshot::{KeyboardSnapshot, INPUT_BUFFER_LENGTH};
pub use pong::{
    fixed_update, is_colliding, process_inputs, start, update, Ball, GameState, Paddle, PongConfig,
    Rect, Vector2, BALL_SIZE, BALL_START, FIELD, MAX_SPEED, PADDLE_H, PADDLE_START_Y, PADDLE_W,
    RIGHT_PADDLE_X,
};
