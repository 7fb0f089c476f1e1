use vstd::prelude::*;

verus! {

/// The kinds of input a buffer may encode. The first byte of a buffer is the
/// kind's tag, its position in this list.
#[derive(Clone, Copy, Debug, PartialEq, Eq, Structural)]
pub enum InputType {
    Null,
    Gamepad,
    Touch,
    Mouse,
    Keyboard,
    Custom,
}

/// Tag byte that marks a buffer as keyboard input.
pub const KEYBOARD_TAG: u8 = 4;

impl InputType {
    pub open spec fn spec_tag(self) -> u8 {
        match self {
            InputType::Null => 0,
            InputType::Gamepad => 1,
            InputType::Touch => 2,
            InputType::Mouse => 3,
            InputType::Keyboard => 4,
            InputType::Custom => 5,
        }
    }

    /// The tag byte of this kind of input.
    #[verifier::when_used_as_spec(spec_tag)]
    pub fn tag(self) -> (r: u8)
        ensures
            r == self.spec_tag(),
    {
        match self {
            InputType::Null => 0,
            InputType::Gamepad => 1,
            InputType::Touch => 2,
            InputType::Mouse => 3,
            InputType::Keyboard => 4,
            InputType::Custom => 5,
        }
    }
}

/// Why an input buffer could not be decoded.
#[derive(Clone, Copy, Debug, PartialEq, Eq, Structural)]
pub enum InputError {
    /// The tag byte was not the one expected.
    InvalidInputKind { expected: u8, actual: u8 },
}

} // verus!
