use nova::contact::{foot_contact_detection, CollisionEvent, CollisionKind, FootContact};
use nova::input::KeyInput;
use nova::joints::{collect_joint_angles, drive_joints, joint_slot, Joint, JointTargets};
use nova::sensors::{first_three, foot_contacts_from, quat_xyzw_from_wxyz, upright_from_tilt};

fn ev(kind: CollisionKind, first: u64, second: u64) -> CollisionEvent {
    CollisionEvent { kind, first, second }
}

const GROUND: u64 = 100;

#[test]
fn contact_follows_last_ground_event() {
    let mut feet = vec![(7u64, FootContact::new()), (9u64, FootContact::new()), (11u64, FootContact { touching_ground: true })];
    let events = vec![
        ev(CollisionKind::Started, 7, GROUND),
        ev(CollisionKind::Started, GROUND, 9),
        ev(CollisionKind::Stopped, 9, GROUND),
    ];
    foot_contact_detection(&events, GROUND, &mut feet);
    assert_eq!(feet[0], (7, FootContact { touching_ground: true }));
    assert_eq!(feet[1], (9, FootContact { touching_ground: false }));
    // a foot with no ground collision keeps its state
    assert_eq!(feet[2], (11, FootContact { touching_ground: true }));
}

#[test]
fn collisions_with_other_bodies_are_not_ground_contact() {
    // foot 7 touches its own shin (8) and the other foot (9): no ground contact
    let mut feet = vec![(7u64, FootContact::new()), (9u64, FootContact { touching_ground: true })];
    let events = vec![
        ev(CollisionKind::Started, 7, 8),
        ev(CollisionKind::Started, 9, 7),
        ev(CollisionKind::Stopped, 7, 9),
    ];
    foot_contact_detection(&events, GROUND, &mut feet);
    assert!(!feet[0].1.touching_ground);
    assert!(feet[1].1.touching_ground);
}

#[test]
fn contact_frames_compose() {
    let events = vec![
        ev(CollisionKind::Started, 1, GROUND),
        ev(CollisionKind::Stopped, GROUND, 1),
        ev(CollisionKind::Started, GROUND, 1),
        ev(CollisionKind::Started, 2, GROUND),
        ev(CollisionKind::Started, 4, 2),
    ];
    let start = vec![(1u64, FootContact::new()), (2u64, FootContact::new()), (4u64, FootContact::new())];
    let mut once = start.clone();
    foot_contact_detection(&events, GROUND, &mut once);
    let mut twice = start.clone();
    foot_contact_detection(&events[..2].to_vec(), GROUND, &mut twice);
    foot_contact_detection(&events[2..].to_vec(), GROUND, &mut twice);
    assert_eq!(once, twice);
    assert!(once[0].1.touching_ground);
    assert!(once[1].1.touching_ground);
    assert!(!once[2].1.touching_ground);
}

#[test]
fn no_events_no_change() {
    let mut feet = vec![(1u64, FootContact { touching_ground: true })];
    foot_contact_detection(&Vec::new(), GROUND, &mut feet);
    assert!(feet[0].1.touching_ground);
}

#[test]
fn joint_slots() {
    assert_eq!(joint_slot(Joint::LeftHipPitch), Some(0));
    assert_eq!(joint_slot(Joint::LeftKnee), Some(1));
    assert_eq!(joint_slot(Joint::RightHipPitch), Some(2));
    assert_eq!(joint_slot(Joint::RightKnee), Some(3));
    assert_eq!(joint_slot(Joint::LeftShoulderPitch), Some(4));
    assert_eq!(joint_slot(Joint::LeftElbow), Some(5));
    assert_eq!(joint_slot(Joint::RightShoulderPitch), Some(6));
    assert_eq!(joint_slot(Joint::RightElbow), Some(7));
    assert_eq!(joint_slot(Joint::HeadNeck), None);
}

#[test]
fn commands_fill_targets_in_slot_order() {
    let mut t = JointTargets::new(0.0f32);
    t.apply_commands(&vec![1.0, 2.0, 3.0, 4.0, 5.0, 6.0, 7.0, 8.0, 9.0]);
    assert_eq!(t.l_hip_pitch, 1.0);
    assert_eq!(t.l_knee, 2.0);
    assert_eq!(t.r_hip_pitch, 3.0);
    assert_eq!(t.r_knee, 4.0);
    assert_eq!(t.l_shoulder_pitch, 5.0);
    assert_eq!(t.l_elbow, 6.0);
    assert_eq!(t.r_shoulder_pitch, 7.0);
    assert_eq!(t.r_elbow, 8.0);
    assert_eq!(t.head_yaw, 0.0);
    assert_eq!(t.head_pitch, 0.0);
    assert_eq!(t.target_for(Joint::HeadNeck), None);
    assert_eq!(t.target_for(Joint::RightElbow), Some(8.0));
}

#[test]
fn short_commands_change_nothing() {
    let mut t = JointTargets::new(0.5f32);
    t.apply_commands(&vec![1.0; 7]);
    assert_eq!(t.l_hip_pitch, 0.5);
    assert_eq!(t.r_elbow, 0.5);
}

#[test]
fn sensed_angles_echo_the_command() {
    let cmds = vec![0.1f32, 0.2, 0.3, 0.4, 0.5, 0.6, 0.7, 0.8];
    let mut t = JointTargets::new(0.0f32);
    t.apply_commands(&cmds);
    let mut motors = vec![
        (Joint::HeadNeck, -1.0f32),
        (Joint::RightKnee, 0.0),
        (Joint::LeftHipPitch, 0.0),
        (Joint::LeftElbow, 0.0),
    ];
    drive_joints(&t, &mut motors);
    assert_eq!(motors[0], (Joint::HeadNeck, -1.0));
    assert_eq!(motors[1], (Joint::RightKnee, 0.4));
    let mut angles = vec![9.0f32; 19];
    collect_joint_angles(&mut angles, &motors);
    assert_eq!(angles[0], 0.1);
    assert_eq!(angles[3], 0.4);
    assert_eq!(angles[5], 0.6);
    // slots that no joint reading covers keep their angles
    assert_eq!(angles[1], 9.0);
    assert_eq!(angles[8], 9.0);
    assert_eq!(angles.len(), 19);
}

#[test]
fn readings_outside_the_angles_are_ignored() {
    let mut angles = vec![0.0f32; 2];
    collect_joint_angles(&mut angles, &vec![(Joint::RightElbow, 1.0), (Joint::LeftKnee, 2.0), (Joint::LeftKnee, 3.0)]);
    assert_eq!(angles, vec![0.0, 3.0]);
}

#[test]
fn key_axes() {
    let k = |forward, backward, left, right| KeyInput { forward, backward, left, right };
    assert_eq!(k(true, false, false, false).axes(), (1, 0));
    assert_eq!(k(false, true, true, false).axes(), (-1, -1));
    assert_eq!(k(false, false, false, true).axes(), (0, 1));
    assert!(k(false, false, false, false).is_idle());
    assert!(k(true, true, true, true).is_idle());
    assert!(!k(true, true, true, false).is_idle());
    assert!(!k(true, false, false, false).is_idle());
}

#[test]
fn sensor_decoding() {
    assert_eq!(foot_contacts_from(&vec![]), [false, false]);
    assert_eq!(foot_contacts_from(&vec![true]), [true, false]);
    assert_eq!(foot_contacts_from(&vec![false, true, true]), [false, true]);
    assert!(upright_from_tilt(&vec![]));
    assert!(upright_from_tilt(&vec![true, true, false]));
    assert!(!upright_from_tilt(&vec![false]));
    assert!(!upright_from_tilt(&vec![true, false]));
    assert_eq!(quat_xyzw_from_wxyz(&vec![1.0f32, 2.0, 3.0, 4.0], [0.0, 0.0, 0.0, 1.0]), [2.0, 3.0, 4.0, 1.0]);
    assert_eq!(quat_xyzw_from_wxyz(&vec![1.0f32, 2.0, 3.0], [0.0, 0.0, 0.0, 1.0]), [0.0, 0.0, 0.0, 1.0]);
    assert_eq!(first_three(&vec![1.0f32, 2.0, 3.0, 4.0], 0.0), [1.0, 2.0, 3.0]);
    assert_eq!(first_three(&vec![1.0f32, 2.0], 0.0), [0.0, 0.0, 0.0]);
}
