use vstd::prelude::*;
use crate::player::types::MovementState;

verus! {

/// Input flags for a single movement tick.
#[derive(Debug, Clone, Copy, Default)]
pub struct MoveInput {
    pub forward: bool,
    pub backward: bool,
    pub left: bool,
    pub right: bool,
    pub jump: bool,
    pub crouch: bool,
    pub walk: bool,
    pub sneak: bool,
    /// Pitch change, in hundredths of a degree
    pub view_delta_pitch: i32,
    /// Yaw change, in hundredths of a degree
    pub view_delta_yaw: i32,
}

/// The movement mode that an input produces: in the air when off the
/// ground; otherwise crouching beats standing still, which beats sneaking,
/// walking and running, in that order.
pub open spec fn movement_mode(input: MoveInput, is_on_ground: bool) -> MovementState {
    if !is_on_ground {
        MovementState::InAir
    } else if input.crouch {
        MovementState::Crouching
    } else if !(input.forward || input.backward || input.left || input.right) {
        MovementState::Standing
    } else if input.sneak {
        MovementState::Sneaking
    } else if input.walk {
        MovementState::Walking
    } else {
        MovementState::Running
    }
}

/// The movement mode for one tick of input.
pub fn determine_movement_state(input: &MoveInput, is_on_ground: bool) -> (m: MovementState)
    ensures
        m == movement_mode(*input, is_on_ground),
{
    if !is_on_ground {
        return MovementState::InAir;
    }
    if input.crouch {
        return MovementState::Crouching;
    }
    let moving = input.forward || input.backward || input.left || input.right;
    if !moving {
        return MovementState::Standing;
    }
    if input.sneak {
        return MovementState::Sneaking;
    }
    if input.walk {
        return MovementState::Walking;
    }
    MovementState::Running
}

} // verus!
