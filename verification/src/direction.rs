use vstd::prelude::*;

use crate::vec2::{Vec2, SCALAR_NEG_ONE, SCALAR_ONE, SCALAR_ZERO};

verus! {

/// The closed input vocabulary: a unit step along one axis, or no step.
///
/// At the host boundary a direction travels as a tag word; [`InputDirection::from_tag`]
/// decodes it defensively, mapping every tag outside the vocabulary to `Neutral`.
#[derive(Copy, Clone, PartialEq, Eq, Structural, Debug)]
pub enum InputDirection {
    Neutral,
    Up,
    Down,
    Left,
    Right,
}

/// The delta of a direction: `Up` is (0, +1), `Down` is (0, -1), `Left` is
/// (-1, 0), `Right` is (+1, 0) and `Neutral` is (0, 0), each component given
/// as its single-precision bit pattern.
pub open spec fn delta_of(d: InputDirection) -> Vec2 {
    match d {
        InputDirection::Neutral => Vec2 { x: SCALAR_ZERO, y: SCALAR_ZERO },
        InputDirection::Up => Vec2 { x: SCALAR_ZERO, y: SCALAR_ONE },
        InputDirection::Down => Vec2 { x: SCALAR_ZERO, y: SCALAR_NEG_ONE },
        InputDirection::Left => Vec2 { x: SCALAR_NEG_ONE, y: SCALAR_ZERO },
        InputDirection::Right => Vec2 { x: SCALAR_ONE, y: SCALAR_ZERO },
    }
}

impl InputDirection {
    /// The tag-word decoding: the five tags of the closed enumeration map
    /// to their variants, every other tag is treated as `Neutral`.
    pub open spec fn spec_from_tag(tag: u32) -> InputDirection {
        if tag == 1 {
            InputDirection::Up
        } else if tag == 2 {
            InputDirection::Down
        } else if tag == 3 {
            InputDirection::Left
        } else if tag == 4 {
            InputDirection::Right
        } else {
            InputDirection::Neutral
        }
    }

    /// Decodes a foreign tag word defensively: out-of-vocabulary tags
    /// become `Neutral` rather than undefined behaviour.
    pub fn from_tag(tag: u32) -> (r: InputDirection)
        ensures
            r == InputDirection::spec_from_tag(tag),
    {
        match tag {
            1 => InputDirection::Up,
            2 => InputDirection::Down,
            3 => InputDirection::Left,
            4 => InputDirection::Right,
            _ => InputDirection::Neutral,
        }
    }

    /// Computes the unit (or zero) delta this direction stands for.
    pub fn delta(self) -> (r: Vec2)
        ensures
            r == delta_of(self),
    {
        match self {
            InputDirection::Neutral => Vec2 { x: SCALAR_ZERO, y: SCALAR_ZERO },
            InputDirection::Up => Vec2 { x: SCALAR_ZERO, y: SCALAR_ONE },
            InputDirection::Down => Vec2 { x: SCALAR_ZERO, y: SCALAR_NEG_ONE },
            InputDirection::Left => Vec2 { x: SCALAR_NEG_ONE, y: SCALAR_ZERO },
            InputDirection::Right => Vec2 { x: SCALAR_ONE, y: SCALAR_ZERO },
        }
    }
}

} // verus!
