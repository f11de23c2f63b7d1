//! The action controller: from the keys held in one tick to the walk, jump
//! and climb requests that the character motor receives.

use vstd::prelude::*;

verus! {

/// Speed of walking, in world units per second.
pub const WALK_SPEED: u32 = 200;

/// Height above ground contact at which the motor keeps the character's
/// centre.
pub const FLOAT_HEIGHT: u32 = 12;

/// Acceleration on the ground, in world units per second squared.
pub const GROUND_ACCELERATION: u32 = 400;

/// Acceleration in the air, in world units per second squared.
pub const AIR_ACCELERATION: u32 = 200;

/// Apex height of a jump, in world units.
pub const JUMP_HEIGHT: u32 = 60;

/// Upward speed on a ladder, in world units per second.
pub const CLIMB_SPEED: u32 = 5;

/// Radius of the character's capsule collider.
pub const CAPSULE_RADIUS: u32 = 8;

/// Length of the straight part of the character's capsule collider.
pub const CAPSULE_LENGTH: u32 = 6;

/// The physical keys that the controller polls, each held or not.
#[derive(Clone, Copy, Debug, PartialEq, Eq)]
pub struct KeysHeld {
    pub arrow_up: bool,
    pub arrow_down: bool,
    pub arrow_left: bool,
    pub arrow_right: bool,
    pub key_w: bool,
    pub key_s: bool,
    pub key_a: bool,
    pub key_d: bool,
    pub space: bool,
    pub key_f: bool,
}

/// The logical keys, each held or not.
#[derive(Clone, Copy, Debug, PartialEq, Eq)]
pub struct InputState {
    pub up: bool,
    pub down: bool,
    pub left: bool,
    pub right: bool,
    pub jump: bool,
    pub interact: bool,
}

/// The direction that the movement keys compose, before it is normalised:
/// each component is -1, 0 or 1. Opposite keys cancel. `x` is positive to
/// the right, `y` is positive for the down key.
#[derive(Clone, Copy, Debug, PartialEq, Eq)]
pub struct Direction {
    pub x: i8,
    pub y: i8,
}

/// The side that the character faces.
#[derive(Clone, Copy, Debug, PartialEq, Eq, Structural)]
pub enum Facing {
    Left,
    Right,
}

/// The action that the motor is playing when the tick begins.
#[derive(Clone, Copy, Debug, PartialEq, Eq, Structural)]
pub enum CurrentAction {
    Idle,
    Walk,
    Jump,
    Climb,
}

/// Whether the climb action is being driven.
#[derive(Clone, Copy, Debug, PartialEq, Eq, Structural)]
pub enum ClimbState {
    NotActive,
    Active,
}

/// The walk basis. The desired velocity is `direction`, normalised, times
/// `speed`.
#[derive(Clone, Copy, Debug, PartialEq, Eq)]
pub struct WalkRequest {
    pub direction: Direction,
    pub speed: u32,
    pub float_height: u32,
    pub acceleration: u32,
    pub air_acceleration: u32,
    pub facing: Facing,
}

/// A jump towards a fixed apex height.
#[derive(Clone, Copy, Debug, PartialEq, Eq)]
pub struct JumpRequest {
    pub height: u32,
}

/// The climb action: with a target speed it drives the character up the
/// ladder, without one it tells the motor that the climb is over.
#[derive(Clone, Copy, Debug, PartialEq, Eq)]
pub struct ClimbRequest {
    pub target_speed: Option<u32>,
}

/// What the controller asks of the motor in one tick.
#[derive(Clone, Copy, Debug, PartialEq, Eq)]
pub struct ActionRequest {
    /// Issued in every tick: without a basis the character falls freely.
    pub walk: WalkRequest,
    /// Issued in every tick in which the jump key is held.
    pub jump: Option<JumpRequest>,
    /// Issued in every tick in which the climb is active.
    pub climb: Option<ClimbRequest>,
}

/// The logical keys behind the physical ones: each arrow key has a letter
/// key as its alias.
pub open spec fn logical_keys(keys: KeysHeld) -> InputState {
    InputState {
        up: keys.arrow_up || keys.key_w,
        down: keys.arrow_down || keys.key_s,
        left: keys.arrow_left || keys.key_a,
        right: keys.arrow_right || keys.key_d,
        jump: keys.space,
        interact: keys.key_f,
    }
}

/// 1 if `held`, else 0.
pub open spec fn pressed(held: bool) -> int {
    if held {
        1
    } else {
        0
    }
}

/// The direction that the held movement keys compose.
pub open spec fn composed_direction(input: InputState) -> Direction {
    Direction {
        x: (pressed(input.right) - pressed(input.left)) as i8,
        y: (pressed(input.down) - pressed(input.up)) as i8,
    }
}

/// The facing for a direction: right when it points right, left otherwise.
pub open spec fn facing_of(direction: Direction) -> Facing {
    if direction.x > 0 {
        Facing::Right
    } else {
        Facing::Left
    }
}

/// The walk basis for `input`.
pub open spec fn walk_for(input: InputState) -> WalkRequest {
    WalkRequest {
        direction: composed_direction(input),
        speed: WALK_SPEED,
        float_height: FLOAT_HEIGHT,
        acceleration: GROUND_ACCELERATION,
        air_acceleration: AIR_ACCELERATION,
        facing: facing_of(composed_direction(input)),
    }
}

/// Whether the keys ask for a climb: the composed direction points down.
pub open spec fn climb_input(input: InputState) -> bool {
    composed_direction(input).y > 0
}

/// Whether a climb is triggered in this tick: the keys ask for it while the
/// character overlaps a ladder.
pub open spec fn climb_triggered(input: InputState, on_ladder: bool) -> bool {
    climb_input(input) && on_ladder
}

/// The state of the climb after this tick: active when it is triggered, or
/// when the motor is already playing it.
pub open spec fn climb_state(input: InputState, on_ladder: bool, current: CurrentAction)
    -> ClimbState {
    if current == CurrentAction::Climb || climb_triggered(input, on_ladder) {
        ClimbState::Active
    } else {
        ClimbState::NotActive
    }
}

/// The requests of one tick.
pub open spec fn requested(input: InputState, on_ladder: bool, current: CurrentAction)
    -> ActionRequest {
    ActionRequest {
        walk: walk_for(input),
        jump: if input.jump {
            Some(JumpRequest { height: JUMP_HEIGHT })
        } else {
            None
        },
        climb: if climb_state(input, on_ladder, current) == ClimbState::Active {
            Some(
                ClimbRequest {
                    target_speed: if climb_triggered(input, on_ladder) {
                        Some(CLIMB_SPEED)
                    } else {
                        None
                    },
                },
            )
        } else {
            None
        },
    }
}

/// Whether some sensor of `overlaps` has a body inside it. `overlaps` holds,
/// for each sensor, the number of bodies that overlap it.
pub open spec fn some_occupied(overlaps: Seq<usize>) -> bool {
    exists|i: int| 0 <= i < overlaps.len() && overlaps[i] > 0
}

/// Maps the physical keys to the logical ones.
pub fn logical_input(keys: &KeysHeld) -> (input: InputState)
    ensures
        input == logical_keys(*keys),
{
    InputState {
        up: keys.arrow_up || keys.key_w,
        down: keys.arrow_down || keys.key_s,
        left: keys.arrow_left || keys.key_a,
        right: keys.arrow_right || keys.key_d,
        jump: keys.space,
        interact: keys.key_f,
    }
}

/// Composes the direction of the held movement keys.
pub fn direction(input: &InputState) -> (dir: Direction)
    ensures
        dir == composed_direction(*input),
        -1 <= dir.x <= 1,
        -1 <= dir.y <= 1,
{
    let mut x: i8 = 0;
    let mut y: i8 = 0;
    if input.up {
        y -= 1;
    }
    if input.down {
        y += 1;
    }
    if input.left {
        x -= 1;
    }
    if input.right {
        x += 1;
    }
    Direction { x, y }
}

/// Tells whether any sensor has a body inside it, given the number of
/// overlapping bodies of each.
pub fn any_occupied(overlaps: &[usize]) -> (occupied: bool)
    ensures
        occupied == some_occupied(overlaps@),
{
    let mut i: usize = 0;
    while i < overlaps.len()
        invariant
            i <= overlaps.len(),
            forall|j: int| 0 <= j < i ==> overlaps@[j] == 0,
        decreases overlaps.len() - i,
    {
        if overlaps[i] > 0 {
            return true;
        }
        i += 1;
    }
    false
}

/// Resolves one tick of input into the requests for the motor: the walk
/// basis always, a jump while the jump key is held, and the climb action
/// while the climb is active.
pub fn resolve_controls(input: &InputState, on_ladder: bool, current: CurrentAction) -> (request:
    ActionRequest)
    ensures
        request == requested(*input, on_ladder, current),
{
    let dir = direction(input);
    let walk = WalkRequest {
        direction: dir,
        speed: WALK_SPEED,
        float_height: FLOAT_HEIGHT,
        acceleration: GROUND_ACCELERATION,
        air_acceleration: AIR_ACCELERATION,
        facing: if dir.x > 0 {
            Facing::Right
        } else {
            Facing::Left
        },
    };
    let jump = if input.jump {
        Some(JumpRequest { height: JUMP_HEIGHT })
    } else {
        None
    };
    let climb = dir.y > 0 && on_ladder;
    let climb_request = if current == CurrentAction::Climb || climb {
        Some(
            ClimbRequest {
                target_speed: if climb {
                    Some(CLIMB_SPEED)
                } else {
                    None
                },
            },
        )
    } else {
        None
    };
    ActionRequest { walk, jump, climb: climb_request }
}

/// Runs the controller for one tick. `controller` is the action that the
/// character's motor is playing, or `None` while no character exists: then
/// the tick is skipped. `ladder_overlaps` holds, for each ladder sensor, the
/// number of bodies that overlap it.
pub fn apply_controls(
    controller: Option<CurrentAction>,
    keys: &KeysHeld,
    ladder_overlaps: &[usize],
) -> (request: Option<ActionRequest>)
    ensures
        request == match controller {
            None => None,
            Some(current) => Some(
                requested(logical_keys(*keys), some_occupied(ladder_overlaps@), current),
            ),
        },
{
    match controller {
        None => None,
        Some(current) => {
            let input = logical_input(keys);
            let on_ladder = any_occupied(ladder_overlaps);
            Some(resolve_controls(&input, on_ladder, current))
        },
    }
}

/// The walk basis is issued in every tick with the same tuning, whatever is
/// held; with nothing held its direction is zero.
pub proof fn walk_is_always_issued(input: InputState, on_ladder: bool, current: CurrentAction)
    ensures
        requested(input, on_ladder, current).walk.speed == WALK_SPEED,
        requested(input, on_ladder, current).walk.float_height == FLOAT_HEIGHT,
        requested(input, on_ladder, current).walk.acceleration == GROUND_ACCELERATION,
        requested(input, on_ladder, current).walk.air_acceleration == AIR_ACCELERATION,
        !input.up && !input.down && !input.left && !input.right ==> requested(
            input,
            on_ladder,
            current,
        ).walk.direction == (Direction { x: 0, y: 0 }),
{
}

/// A jump is requested exactly while the jump key is held, always towards
/// the same apex.
pub proof fn jump_follows_key(input: InputState, on_ladder: bool, current: CurrentAction)
    ensures
        requested(input, on_ladder, current).jump is Some <==> input.jump,
        requested(input, on_ladder, current).jump matches Some(j) ==> j.height == JUMP_HEIGHT,
{
}

/// The climb is active exactly when it is triggered or already playing. An
/// active climb is issued; it carries the climb speed exactly when it is
/// triggered in this tick, and otherwise tells the motor to finish.
pub proof fn climb_transitions(input: InputState, on_ladder: bool, current: CurrentAction)
    ensures
        climb_state(input, on_ladder, current) == ClimbState::Active <==> (current
            == CurrentAction::Climb || (input.down && !input.up && on_ladder)),
        requested(input, on_ladder, current).climb is Some <==> climb_state(
            input,
            on_ladder,
            current,
        ) == ClimbState::Active,
        requested(input, on_ladder, current).climb matches Some(c) ==> (c.target_speed == Some(
            CLIMB_SPEED,
        ) <==> (input.down && !input.up && on_ladder)) && (c.target_speed is None <==> !(
            input.down && !input.up && on_ladder)),
{
}

/// The hover height clears the capsule: it is greater than the distance
/// from the character's centre to the lowest point of its collider.
pub proof fn float_height_clears_capsule()
    ensures
        2 * FLOAT_HEIGHT > 2 * CAPSULE_RADIUS + CAPSULE_LENGTH,
{
}

} // verus!
