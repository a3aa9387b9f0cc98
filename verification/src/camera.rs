use vstd::prelude::*;

verus! {

/// How fast the camera moves, in world units per second, along each axis.
pub const CAMERA_SPEED: u32 = 500;

/// Which of the movement keys are held down: `A` (left), `D` (right), `W`
/// (up) and `S` (down).
#[derive(Clone, Copy, Debug, PartialEq, Eq, Structural)]
pub struct MovementKeys {
    pub left: bool,
    pub right: bool,
    pub up: bool,
    pub down: bool,
}

/// 1 when `b` holds, 0 otherwise.
pub open spec fn flag(b: bool) -> int {
    if b {
        1
    } else {
        0
    }
}

/// The direction the camera moves in while `keys` are held, as a step of
/// -1, 0 or 1 along the horizontal and the vertical axis: right counts
/// against left and up against down, so two opposite keys cancel out.
pub fn movement_direction(keys: MovementKeys) -> (direction: (i8, i8))
    ensures
        direction.0 == flag(keys.right) - flag(keys.left),
        direction.1 == flag(keys.up) - flag(keys.down),
        -1 <= direction.0 <= 1,
        -1 <= direction.1 <= 1,
{
    let mut dx: i8 = 0;
    let mut dy: i8 = 0;
    if keys.left {
        dx = dx - 1;
    }
    if keys.right {
        dx = dx + 1;
    }
    if keys.up {
        dy = dy + 1;
    }
    if keys.down {
        dy = dy - 1;
    }
    (dx, dy)
}

} // verus!
