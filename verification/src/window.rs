//! The inputs of the game, apart from the keys they are bound to.

use vstd::prelude::*;

verus! {

/// Something a player can ask for by pressing a key.
#[derive(Clone, Copy, Debug, PartialEq, Eq, PartialOrd, Ord, Hash, Structural)]
pub enum GameInput {
    MoveForward,
    MoveBackwards,
    MoveLeft,
    MoveRight,
    FlyUp,
    FlyDown,
    Sprint,
    Escape,
}

impl GameInput {
    /// All inputs, in the order of their declaration.
    pub open spec fn all() -> Seq<GameInput> {
        seq![
            GameInput::MoveForward,
            GameInput::MoveBackwards,
            GameInput::MoveLeft,
            GameInput::MoveRight,
            GameInput::FlyUp,
            GameInput::FlyDown,
            GameInput::Sprint,
            GameInput::Escape,
        ]
    }

    /// The place of an input in the order of declaration.
    pub open spec fn ordinal(self) -> int {
        match self {
            GameInput::MoveForward => 0,
            GameInput::MoveBackwards => 1,
            GameInput::MoveLeft => 2,
            GameInput::MoveRight => 3,
            GameInput::FlyUp => 4,
            GameInput::FlyDown => 5,
            GameInput::Sprint => 6,
            GameInput::Escape => 7,
        }
    }

    /// Every input is listed, and once: each stands at its own place in the
    /// list of all inputs, and the list has no other place.
    pub proof fn all_lists_every_input_once(input: GameInput, i: int)
        ensures
            Self::all().len() == 8,
            0 <= input.ordinal() < 8,
            Self::all()[input.ordinal()] == input,
            0 <= i < 8 && Self::all()[i] == input ==> i == input.ordinal(),
    {
    }

    /// All inputs, to iterate over.
    pub fn iter() -> (inputs: [GameInput; 8])
        ensures
            inputs@ == Self::all(),
    {
        let inputs = [
            GameInput::MoveForward,
            GameInput::MoveBackwards,
            GameInput::MoveLeft,
            GameInput::MoveRight,
            GameInput::FlyUp,
            GameInput::FlyDown,
            GameInput::Sprint,
            GameInput::Escape,
        ];
        assert(inputs@ =~= Self::all());
        inputs
    }
}

} // verus!
