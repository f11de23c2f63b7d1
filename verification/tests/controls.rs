use recycles::controls::{
    any_occupied, apply_controls, direction, logical_input, resolve_controls, ActionRequest,
    ClimbRequest, CurrentAction, Direction, Facing, InputState, JumpRequest, KeysHeld,
    WalkRequest, AIR_ACCELERATION, CAPSULE_LENGTH, CAPSULE_RADIUS, CLIMB_SPEED, FLOAT_HEIGHT,
    GROUND_ACCELERATION, JUMP_HEIGHT, WALK_SPEED,
};

const NO_INPUT: InputState =
    InputState { up: false, down: false, left: false, right: false, jump: false, interact: false };

const NO_KEYS: KeysHeld = KeysHeld {
    arrow_up: false,
    arrow_down: false,
    arrow_left: false,
    arrow_right: false,
    key_w: false,
    key_s: false,
    key_a: false,
    key_d: false,
    space: false,
    key_f: false,
};

const CURRENT: [CurrentAction; 4] =
    [CurrentAction::Idle, CurrentAction::Walk, CurrentAction::Jump, CurrentAction::Climb];

fn walk(x: i8, y: i8, facing: Facing) -> WalkRequest {
    WalkRequest {
        direction: Direction { x, y },
        speed: 200,
        float_height: 12,
        acceleration: 400,
        air_acceleration: 200,
        facing,
    }
}

fn inputs() -> Vec<InputState> {
    let mut all = Vec::new();
    for bits in 0..64u8 {
        all.push(InputState {
            up: bits & 1 != 0,
            down: bits & 2 != 0,
            left: bits & 4 != 0,
            right: bits & 8 != 0,
            jump: bits & 16 != 0,
            interact: bits & 32 != 0,
        });
    }
    all
}

#[test]
fn tuning_constants() {
    assert_eq!(WALK_SPEED, 200);
    assert_eq!(FLOAT_HEIGHT, 12);
    assert_eq!(GROUND_ACCELERATION, 400);
    assert_eq!(AIR_ACCELERATION, 200);
    assert_eq!(JUMP_HEIGHT, 60);
    assert_eq!(CLIMB_SPEED, 5);
    assert!(2 * FLOAT_HEIGHT > 2 * CAPSULE_RADIUS + CAPSULE_LENGTH);
}

#[test]
fn down_on_a_ladder_starts_the_climb_with_speed_five() {
    let input = InputState { down: true, ..NO_INPUT };
    let request = resolve_controls(&input, true, CurrentAction::Idle);
    assert_eq!(request.climb, Some(ClimbRequest { target_speed: Some(5) }));
    assert_eq!(request.jump, None);
    assert_eq!(request.walk, walk(0, 1, Facing::Left));
}

#[test]
fn released_down_keeps_the_climb_while_the_motor_plays_it() {
    let request = resolve_controls(&NO_INPUT, true, CurrentAction::Climb);
    assert_eq!(request.climb, Some(ClimbRequest { target_speed: None }));
    let request = resolve_controls(&NO_INPUT, true, CurrentAction::Idle);
    assert_eq!(request.climb, None);
}

#[test]
fn climb_goes_on_for_a_tick_after_leaving_the_ladder() {
    let request = resolve_controls(&NO_INPUT, false, CurrentAction::Climb);
    assert_eq!(request.climb, Some(ClimbRequest { target_speed: None }));
    let held = InputState { down: true, ..NO_INPUT };
    let request = resolve_controls(&held, false, CurrentAction::Climb);
    assert_eq!(request.climb, Some(ClimbRequest { target_speed: None }));
    let request = resolve_controls(&held, false, CurrentAction::Jump);
    assert_eq!(request.climb, None);
}

#[test]
fn climb_needs_the_down_key_and_a_ladder() {
    for input in inputs() {
        for on_ladder in [false, true] {
            for current in CURRENT {
                let request = resolve_controls(&input, on_ladder, current);
                let triggered = input.down && !input.up && on_ladder;
                let active = triggered || current == CurrentAction::Climb;
                let expected = if !active {
                    None
                } else if triggered {
                    Some(ClimbRequest { target_speed: Some(5) })
                } else {
                    Some(ClimbRequest { target_speed: None })
                };
                assert_eq!(request.climb, expected);
            }
        }
    }
}

#[test]
fn up_and_down_together_cancel() {
    let input = InputState { up: true, down: true, ..NO_INPUT };
    assert_eq!(direction(&input), Direction { x: 0, y: 0 });
    assert_eq!(resolve_controls(&input, true, CurrentAction::Idle).climb, None);
    let input = InputState { up: true, ..NO_INPUT };
    assert_eq!(direction(&input), Direction { x: 0, y: -1 });
    assert_eq!(resolve_controls(&input, true, CurrentAction::Idle).climb, None);
}

#[test]
fn walk_is_issued_on_every_tick() {
    for input in inputs() {
        for current in CURRENT {
            let request = resolve_controls(&input, false, current);
            assert_eq!(request.walk.speed, 200);
            assert_eq!(request.walk.float_height, 12);
            assert_eq!(request.walk.acceleration, 400);
            assert_eq!(request.walk.air_acceleration, 200);
            assert_eq!(request.walk.direction, direction(&input));
        }
    }
    let request = resolve_controls(&NO_INPUT, false, CurrentAction::Idle);
    assert_eq!(
        request,
        ActionRequest { walk: walk(0, 0, Facing::Left), jump: None, climb: None }
    );
}

#[test]
fn direction_is_composed_from_the_held_keys() {
    let right = InputState { right: true, ..NO_INPUT };
    let left = InputState { left: true, ..NO_INPUT };
    let both = InputState { left: true, right: true, ..NO_INPUT };
    let diagonal = InputState { right: true, down: true, ..NO_INPUT };
    assert_eq!(direction(&right), Direction { x: 1, y: 0 });
    assert_eq!(direction(&left), Direction { x: -1, y: 0 });
    assert_eq!(direction(&both), Direction { x: 0, y: 0 });
    assert_eq!(direction(&diagonal), Direction { x: 1, y: 1 });
    for input in inputs() {
        let d = direction(&input);
        assert_eq!(d.x, input.right as i8 - input.left as i8);
        assert_eq!(d.y, input.down as i8 - input.up as i8);
    }
}

#[test]
fn facing_follows_the_horizontal_sign() {
    let right = InputState { right: true, ..NO_INPUT };
    let left = InputState { left: true, ..NO_INPUT };
    assert_eq!(resolve_controls(&right, false, CurrentAction::Idle).walk.facing, Facing::Right);
    assert_eq!(resolve_controls(&left, false, CurrentAction::Idle).walk.facing, Facing::Left);
    assert_eq!(resolve_controls(&NO_INPUT, false, CurrentAction::Idle).walk.facing, Facing::Left);
    let both = InputState { left: true, right: true, ..NO_INPUT };
    assert_eq!(resolve_controls(&both, false, CurrentAction::Idle).walk.facing, Facing::Left);
}

#[test]
fn jump_is_issued_while_the_key_is_held() {
    let held = InputState { jump: true, ..NO_INPUT };
    for current in CURRENT {
        assert_eq!(
            resolve_controls(&held, false, current).jump,
            Some(JumpRequest { height: 60 })
        );
        assert_eq!(resolve_controls(&NO_INPUT, false, current).jump, None);
    }
}

#[test]
fn letter_keys_are_aliases_of_the_arrows() {
    let arrows = KeysHeld { arrow_up: true, arrow_left: true, ..NO_KEYS };
    let letters = KeysHeld { key_w: true, key_a: true, ..NO_KEYS };
    assert_eq!(logical_input(&arrows), logical_input(&letters));
    assert_eq!(logical_input(&arrows), InputState { up: true, left: true, ..NO_INPUT });
    let arrows = KeysHeld { arrow_down: true, arrow_right: true, ..NO_KEYS };
    let letters = KeysHeld { key_s: true, key_d: true, ..NO_KEYS };
    assert_eq!(logical_input(&arrows), logical_input(&letters));
    assert_eq!(logical_input(&arrows), InputState { down: true, right: true, ..NO_INPUT });
    let others = KeysHeld { space: true, key_f: true, ..NO_KEYS };
    assert_eq!(logical_input(&others), InputState { jump: true, interact: true, ..NO_INPUT });
    assert_eq!(logical_input(&NO_KEYS), NO_INPUT);
}

#[test]
fn sensors_are_occupied_when_any_has_a_body() {
    assert!(!any_occupied(&[]));
    assert!(!any_occupied(&[0]));
    assert!(!any_occupied(&[0, 0, 0]));
    assert!(any_occupied(&[1]));
    assert!(any_occupied(&[0, 0, 2]));
    assert!(any_occupied(&[3, 0, 0]));
}

#[test]
fn tick_is_skipped_without_a_controller() {
    let keys = KeysHeld { key_s: true, space: true, ..NO_KEYS };
    assert_eq!(apply_controls(None, &keys, &[1, 0, 0]), None);
}

#[test]
fn tick_resolves_keys_and_ladders() {
    let keys = KeysHeld { key_s: true, space: true, arrow_right: true, ..NO_KEYS };
    let request = apply_controls(Some(CurrentAction::Idle), &keys, &[0, 1, 0]);
    assert_eq!(
        request,
        Some(ActionRequest {
            walk: walk(1, 1, Facing::Right),
            jump: Some(JumpRequest { height: 60 }),
            climb: Some(ClimbRequest { target_speed: Some(5) }),
        })
    );
    let request = apply_controls(Some(CurrentAction::Idle), &keys, &[0, 0, 0]);
    assert_eq!(request.unwrap().climb, None);
    let request = apply_controls(Some(CurrentAction::Climb), &NO_KEYS, &[]);
    assert_eq!(request.unwrap().climb, Some(ClimbRequest { target_speed: None }));
}
