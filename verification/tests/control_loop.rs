use nova::command::{
    command_from_action, command_from_semantic, ActError, BecomingCmd, SemanticCommand,
    ACTION_JOINTS,
};
use nova::control::{control_rate, tick_period_micros, ControlState, TickAction};

fn step_parts(a: TickAction<f32>) -> (Option<Vec<f32>>, [f32; 3], bool) {
    match a {
        TickAction::Step { joints, velocity, report } => (joints, velocity, report),
        TickAction::Reset => panic!("expected a step"),
    }
}

#[test]
fn rates_and_periods() {
    assert_eq!(control_rate(true), 500);
    assert_eq!(control_rate(false), 50);
    assert_eq!(tick_period_micros(50), 20_000);
    assert_eq!(tick_period_micros(500), 2_000);
    assert_eq!(tick_period_micros(1_000_000), 1);
    assert_eq!(tick_period_micros(3), 333_333);
}

#[test]
fn fresh_state_is_at_rest() {
    let s = ControlState::new(50, 0.0f32);
    assert_eq!(s.target_vel, [0.0, 0.0, 0.0]);
    assert!(s.e2e_action.is_none());
    assert_eq!(s.step, 0);
    assert_eq!(s.hz, 50);
}

#[test]
fn move_then_step_drives_gait() {
    let mut s = ControlState::new(50, 0.0f32);
    let a = s.tick(Some(BecomingCmd::Move { vx: 0.5, vy: 0.1, wz: -0.2 }), true);
    let (joints, velocity, report) = step_parts(a);
    assert!(joints.is_none());
    assert_eq!(velocity, [0.5, 0.1, -0.2]);
    assert!(report);
    assert_eq!(s.step, 1);
    let (_, velocity, report) = step_parts(s.tick(None, true));
    assert_eq!(velocity, [0.5, 0.1, -0.2]);
    assert!(!report);
    assert_eq!(s.step, 2);
}

#[test]
fn stop_stands_still() {
    let mut s = ControlState::new(50, 0.0f32);
    s.apply_command(BecomingCmd::Move { vx: 1.0, vy: 2.0, wz: 3.0 });
    let (joints, velocity, _) = step_parts(s.tick(Some(BecomingCmd::Stop), true));
    assert!(joints.is_none());
    assert_eq!(velocity, [0.0, 0.0, 0.0]);
}

#[test]
fn action_keeps_velocity_and_drives_joints() {
    let mut s = ControlState::new(50, 0.0f32);
    s.apply_command(BecomingCmd::Move { vx: 0.3, vy: 0.0, wz: 0.1 });
    let angles = vec![0.25f32; ACTION_JOINTS];
    let (joints, velocity, _) = step_parts(s.tick(Some(BecomingCmd::Act(angles.clone())), true));
    assert_eq!(joints, Some(angles.clone()));
    assert_eq!(velocity, [0.3, 0.0, 0.1]);
    // the action stays in force on later ticks
    let (joints, _, _) = step_parts(s.tick(None, true));
    assert_eq!(joints, Some(angles));
}

#[test]
fn move_leaves_end_to_end_mode() {
    let mut s = ControlState::new(50, 0.0f32);
    s.apply_command(BecomingCmd::Act(vec![0.1f32; ACTION_JOINTS]));
    let (joints, velocity, _) = step_parts(s.tick(Some(BecomingCmd::Move { vx: 0.2, vy: 0.0, wz: 0.0 }), true));
    assert!(joints.is_none());
    assert_eq!(velocity, [0.2, 0.0, 0.0]);
}

#[test]
fn fall_resets_to_rest_without_counting_a_step() {
    let mut s = ControlState::new(50, 0.0f32);
    s.tick(Some(BecomingCmd::Move { vx: 0.5, vy: 0.0, wz: 0.0 }), true);
    s.apply_command(BecomingCmd::Act(vec![0.1f32; ACTION_JOINTS]));
    let a = s.tick(None, false);
    assert!(matches!(a, TickAction::Reset));
    assert_eq!(s.target_vel, [0.0, 0.0, 0.0]);
    assert!(s.e2e_action.is_none());
    assert_eq!(s.step, 1);
    // a command that arrives in the falling tick is overridden by the reset
    let a = s.tick(Some(BecomingCmd::Move { vx: 0.9, vy: 0.0, wz: 0.0 }), false);
    assert!(matches!(a, TickAction::Reset));
    assert_eq!(s.target_vel, [0.0, 0.0, 0.0]);
}

#[test]
fn reports_every_five_seconds_of_steps() {
    let mut s = ControlState::new(2, 0u8);
    let mut reports = Vec::new();
    for i in 0..25u64 {
        let stable = i != 3;
        match s.tick(None, stable) {
            TickAction::Step { report, .. } => {
                if report {
                    reports.push(s.step - 1);
                }
            }
            TickAction::Reset => {}
        }
    }
    assert_eq!(reports, vec![0, 10, 20]);
    assert_eq!(s.step, 24);
}

#[test]
fn semantic_commands() {
    assert!(matches!(
        command_from_semantic(Some(SemanticCommand::Move { vx: 0.5f32, vy: 0.1, wz: 0.2 }), 0.0),
        BecomingCmd::Move { vx, vy, wz } if vx == 0.5 && vy == 0.1 && wz == 0.2
    ));
    assert!(matches!(
        command_from_semantic(Some(SemanticCommand::Turn { angle: 0.7f32 }), 0.0),
        BecomingCmd::Move { vx, vy, wz } if vx == 0.0 && vy == 0.0 && wz == 0.7
    ));
    assert!(matches!(command_from_semantic(Some(SemanticCommand::<f32>::Stop), 0.0), BecomingCmd::Stop));
    assert!(matches!(command_from_semantic::<f32>(None, 0.0), BecomingCmd::Stop));
}

#[test]
fn actions_need_nineteen_angles() {
    let ok = command_from_action(vec![0.0f32; 19]);
    assert!(matches!(ok, Ok(BecomingCmd::Act(ref v)) if v.len() == 19));
    let short = command_from_action(vec![0.0f32; 8]);
    assert_eq!(short.as_ref().err(), Some(&ActError::WrongJointCount { got: 8 }));
    let long = command_from_action(vec![0.0f32; 20]);
    assert_eq!(long.as_ref().err(), Some(&ActError::WrongJointCount { got: 20 }));
    let empty = command_from_action(Vec::<f32>::new());
    assert_eq!(empty.as_ref().err(), Some(&ActError::WrongJointCount { got: 0 }));
    assert_eq!(ActError::WrongJointCount { got: 0 }.message(), "joint_angles must have 19 elements");
}
