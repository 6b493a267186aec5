//! The actuated joints of the humanoid, their command/sensor slots and the
//! joint set-points that the PD stage drives.

use vstd::prelude::*;

verus! {

/// An actuated joint of the humanoid body.
#[derive(Clone, Copy, Debug, PartialEq, Eq, Structural)]
pub enum Joint {
    HeadNeck,
    LeftShoulderPitch,
    LeftElbow,
    RightShoulderPitch,
    RightElbow,
    LeftHipPitch,
    LeftKnee,
    RightHipPitch,
    RightKnee,
}

/// Number of joint slots in a gait command and in the sensed joint angles:
/// `[L_hip, L_knee, R_hip, R_knee, L_shoulder, L_elbow, R_shoulder, R_elbow]`.
pub const GAIT_SLOTS: usize = 8;

/// The slot of a joint in gait commands and sensed joint angles; the neck has none.
pub open spec fn slot_of(joint: Joint) -> Option<int> {
    match joint {
        Joint::LeftHipPitch => Some(0),
        Joint::LeftKnee => Some(1),
        Joint::RightHipPitch => Some(2),
        Joint::RightKnee => Some(3),
        Joint::LeftShoulderPitch => Some(4),
        Joint::LeftElbow => Some(5),
        Joint::RightShoulderPitch => Some(6),
        Joint::RightElbow => Some(7),
        Joint::HeadNeck => None,
    }
}

/// Returns the slot of `joint` in gait commands and sensed joint angles.
pub fn joint_slot(joint: Joint) -> (r: Option<usize>)
    ensures
        r matches Some(i) ==> slot_of(joint) == Some(i as int),
        r is None <==> slot_of(joint) is None,
{
    match joint {
        Joint::LeftHipPitch => Some(0),
        Joint::LeftKnee => Some(1),
        Joint::RightHipPitch => Some(2),
        Joint::RightKnee => Some(3),
        Joint::LeftShoulderPitch => Some(4),
        Joint::LeftElbow => Some(5),
        Joint::RightShoulderPitch => Some(6),
        Joint::RightElbow => Some(7),
        Joint::HeadNeck => None,
    }
}

/// Set-point angles for each actuated joint, held on the torso.
#[derive(Clone, Copy, Debug)]
pub struct JointTargets<S> {
    pub head_yaw: S,
    pub head_pitch: S,
    pub l_shoulder_pitch: S,
    pub l_elbow: S,
    pub r_shoulder_pitch: S,
    pub r_elbow: S,
    pub l_hip_pitch: S,
    pub l_knee: S,
    pub r_hip_pitch: S,
    pub r_knee: S,
}

impl<S> JointTargets<S> {
    /// All set-points equal to `rest`.
    pub open spec fn uniform(rest: S) -> Self {
        JointTargets {
            head_yaw: rest,
            head_pitch: rest,
            l_shoulder_pitch: rest,
            l_elbow: rest,
            r_shoulder_pitch: rest,
            r_elbow: rest,
            l_hip_pitch: rest,
            l_knee: rest,
            r_hip_pitch: rest,
            r_knee: rest,
        }
    }

    /// The set-point that drives `joint`; the neck is not driven.
    pub open spec fn target_of(self, joint: Joint) -> Option<S> {
        match joint {
            Joint::LeftShoulderPitch => Some(self.l_shoulder_pitch),
            Joint::LeftElbow => Some(self.l_elbow),
            Joint::RightShoulderPitch => Some(self.r_shoulder_pitch),
            Joint::RightElbow => Some(self.r_elbow),
            Joint::LeftHipPitch => Some(self.l_hip_pitch),
            Joint::LeftKnee => Some(self.l_knee),
            Joint::RightHipPitch => Some(self.r_hip_pitch),
            Joint::RightKnee => Some(self.r_knee),
            Joint::HeadNeck => None,
        }
    }

    /// The set-points after a gait command: with at least eight values, the
    /// eight gait slots take them in slot order and the head keeps its
    /// set-points; a shorter command changes nothing.
    pub open spec fn commanded(self, cmds: Seq<S>) -> Self {
        if cmds.len() >= GAIT_SLOTS {
            JointTargets {
                l_hip_pitch: cmds[0],
                l_knee: cmds[1],
                r_hip_pitch: cmds[2],
                r_knee: cmds[3],
                l_shoulder_pitch: cmds[4],
                l_elbow: cmds[5],
                r_shoulder_pitch: cmds[6],
                r_elbow: cmds[7],
                ..self
            }
        } else {
            self
        }
    }
}

impl<S: Copy> JointTargets<S> {
    /// All set-points equal to `rest` (the standing pose when `rest` is zero).
    pub fn new(rest: S) -> (r: Self)
        ensures
            r == Self::uniform(rest),
    {
        JointTargets {
            head_yaw: rest,
            head_pitch: rest,
            l_shoulder_pitch: rest,
            l_elbow: rest,
            r_shoulder_pitch: rest,
            r_elbow: rest,
            l_hip_pitch: rest,
            l_knee: rest,
            r_hip_pitch: rest,
            r_knee: rest,
        }
    }

    /// Returns the set-point that drives `joint`, or `None` for the neck.
    pub fn target_for(&self, joint: Joint) -> (r: Option<S>)
        ensures
            r == self.target_of(joint),
    {
        match joint {
            Joint::LeftShoulderPitch => Some(self.l_shoulder_pitch),
            Joint::LeftElbow => Some(self.l_elbow),
            Joint::RightShoulderPitch => Some(self.r_shoulder_pitch),
            Joint::RightElbow => Some(self.r_elbow),
            Joint::LeftHipPitch => Some(self.l_hip_pitch),
            Joint::LeftKnee => Some(self.l_knee),
            Joint::RightHipPitch => Some(self.r_hip_pitch),
            Joint::RightKnee => Some(self.r_knee),
            Joint::HeadNeck => None,
        }
    }

    /// Writes a gait command into the set-points.
    pub fn apply_commands(&mut self, cmds: &Vec<S>)
        ensures
            *final(self) == old(self).commanded(cmds@),
    {
        if cmds.len() >= GAIT_SLOTS {
            self.l_hip_pitch = cmds[0];
            self.l_knee = cmds[1];
            self.r_hip_pitch = cmds[2];
            self.r_knee = cmds[3];
            self.l_shoulder_pitch = cmds[4];
            self.l_elbow = cmds[5];
            self.r_shoulder_pitch = cmds[6];
            self.r_elbow = cmds[7];
        }
    }
}

/// Motor targets after the PD stage: every driven joint takes its set-point,
/// the neck keeps its motor target.
pub open spec fn driven<S>(targets: JointTargets<S>, joint: Joint, current: S) -> S {
    match targets.target_of(joint) {
        Some(v) => v,
        None => current,
    }
}

/// Sets the motor target of every driven joint to its set-point. The joints
/// keep their order; the neck is left as it is.
pub fn drive_joints<S: Copy>(targets: &JointTargets<S>, motors: &mut Vec<(Joint, S)>)
    ensures
        final(motors)@.len() == old(motors)@.len(),
        forall|k: int|
            0 <= k < final(motors)@.len() ==> #[trigger] final(motors)@[k] == (
                old(motors)@[k].0,
                driven(*targets, old(motors)@[k].0, old(motors)@[k].1),
            ),
{
    let n = motors.len();
    let ghost start = motors@;
    let mut k: usize = 0;
    while k < n
        invariant
            0 <= k <= n,
            motors@.len() == n,
            start.len() == n,
            forall|m: int|
                0 <= m < k ==> #[trigger] motors@[m] == (
                    start[m].0,
                    driven(*targets, start[m].0, start[m].1),
                ),
            forall|m: int| k <= m < n ==> #[trigger] motors@[m] == start[m],
        decreases n - k,
    {
        let joint = motors[k].0;
        match targets.target_for(joint) {
            Some(v) => {
                motors.set(k, (joint, v));
            },
            None => {},
        }
        k = k + 1;
    }
}

/// Sensed joint angles after recording the readings in order: each reading of
/// a joint with a slot inside `angles` overwrites that slot; other readings
/// are ignored.
pub open spec fn recorded<S>(angles: Seq<S>, readings: Seq<(Joint, S)>) -> Seq<S>
    decreases readings.len(),
{
    if readings.len() == 0 {
        angles
    } else {
        let before = recorded(angles, readings.drop_last());
        let (joint, value) = readings.last();
        match slot_of(joint) {
            Some(i) => if i < before.len() {
                before.update(i, value)
            } else {
                before
            },
            None => before,
        }
    }
}

/// Records the current motor angle of each joint into the sensed joint angles.
pub fn collect_joint_angles<S: Copy>(angles: &mut Vec<S>, readings: &Vec<(Joint, S)>)
    ensures
        final(angles)@ == recorded(old(angles)@, readings@),
{
    let n = readings.len();
    let ghost start = angles@;
    let mut k: usize = 0;
    while k < n
        invariant
            n == readings@.len(),
            0 <= k <= n,
            angles@ == recorded(start, readings@.take(k as int)),
        decreases n - k,
    {
        let (joint, value) = readings[k];
        proof {
            lemma_recorded_len(start, readings@.take(k as int));
            assert(readings@.take(k + 1).drop_last() =~= readings@.take(k as int));
            assert(readings@.take(k + 1).last() == readings@[k as int]);
        }
        match joint_slot(joint) {
            Some(i) => {
                if i < angles.len() {
                    angles.set(i, value);
                }
            },
            None => {},
        }
        k = k + 1;
    }
    proof {
        assert(readings@.take(n as int) =~= readings@);
    }
}

/// Recording readings never changes the number of sensed angles.
pub proof fn lemma_recorded_len<S>(angles: Seq<S>, readings: Seq<(Joint, S)>)
    ensures
        recorded(angles, readings).len() == angles.len(),
    decreases readings.len(),
{
    if readings.len() > 0 {
        lemma_recorded_len(angles, readings.drop_last());
    }
}

/// Distinct joints never share a slot.
pub proof fn lemma_slots_distinct(a: Joint, b: Joint)
    requires
        slot_of(a) is Some,
        slot_of(a) == slot_of(b),
    ensures
        a == b,
{
}

/// Every slot of a gait command belongs to exactly one joint, and every slot
/// that a joint has lies below the number of gait slots.
pub proof fn lemma_slots_cover_command(i: int)
    requires
        0 <= i < GAIT_SLOTS,
    ensures
        exists|j: Joint| slot_of(j) == Some(i),
        forall|a: Joint, b: Joint|
            slot_of(a) == Some(i) && slot_of(b) == Some(i) ==> a == b,
        forall|j: Joint| #[trigger] slot_of(j) matches Some(k) ==> 0 <= k < GAIT_SLOTS,
{
    if i == 0 {
        assert(slot_of(Joint::LeftHipPitch) == Some(0int));
    } else if i == 1 {
        assert(slot_of(Joint::LeftKnee) == Some(1int));
    } else if i == 2 {
        assert(slot_of(Joint::RightHipPitch) == Some(2int));
    } else if i == 3 {
        assert(slot_of(Joint::RightKnee) == Some(3int));
    } else if i == 4 {
        assert(slot_of(Joint::LeftShoulderPitch) == Some(4int));
    } else if i == 5 {
        assert(slot_of(Joint::LeftElbow) == Some(5int));
    } else if i == 6 {
        assert(slot_of(Joint::RightShoulderPitch) == Some(6int));
    } else {
        assert(slot_of(Joint::RightElbow) == Some(7int));
    }
}

/// A gait command drives every joint with the value in that joint's slot: a
/// joint has a slot exactly when it is driven, and after the command its
/// set-point is the command's value at its slot.
pub proof fn lemma_command_drives_slot<S>(targets: JointTargets<S>, cmds: Seq<S>, joint: Joint)
    requires
        cmds.len() >= GAIT_SLOTS,
    ensures
        slot_of(joint) is Some <==> targets.target_of(joint) is Some,
        slot_of(joint) matches Some(i) ==> targets.commanded(cmds).target_of(joint) == Some(
            cmds[i],
        ),
{
}

/// What the PD stage writes is what the sensors read back: after a gait
/// command, driving the joints and recording their motor targets yields, in
/// every slot that some joint reading covers, the command's value at that slot;
/// the other slots keep their previous angles.
pub proof fn lemma_sensed_angles_echo_command<S>(
    targets: JointTargets<S>,
    cmds: Seq<S>,
    angles: Seq<S>,
    motors: Seq<(Joint, S)>,
    i: int,
)
    requires
        cmds.len() >= GAIT_SLOTS,
        0 <= i < angles.len(),
    ensures
        ({
            let driven_motors = Seq::new(
                motors.len(),
                |k: int| (motors[k].0, driven(targets.commanded(cmds), motors[k].0, motors[k].1)),
            );
            recorded(angles, driven_motors)[i] == if exists|k: int|
                0 <= k < motors.len() && slot_of(#[trigger] motors[k].0) == Some(i) {
                cmds[i]
            } else {
                angles[i]
            }
        }),
    decreases motors.len(),
{
    let t = targets.commanded(cmds);
    let driven_motors = Seq::new(
        motors.len(),
        |k: int| (motors[k].0, driven(t, motors[k].0, motors[k].1)),
    );
    if motors.len() > 0 {
        let shorter = motors.drop_last();
        lemma_sensed_angles_echo_command(targets, cmds, angles, shorter, i);
        let shorter_driven = Seq::new(
            shorter.len(),
            |k: int| (shorter[k].0, driven(t, shorter[k].0, shorter[k].1)),
        );
        assert(driven_motors.drop_last() =~= shorter_driven);
        lemma_recorded_len(angles, shorter_driven);
        let last = motors.last();
        if slot_of(last.0) == Some(i) {
            assert(slot_of(motors[motors.len() - 1].0) == Some(i));
        } else {
            if exists|k: int| 0 <= k < motors.len() && slot_of(#[trigger] motors[k].0) == Some(i) {
                let k = choose|k: int|
                    0 <= k < motors.len() && slot_of(#[trigger] motors[k].0) == Some(i);
                assert(k < motors.len() - 1);
                assert(shorter[k] == motors[k]);
            }
            if exists|k: int| 0 <= k < shorter.len() && slot_of(#[trigger] shorter[k].0) == Some(i) {
                let k = choose|k: int|
                    0 <= k < shorter.len() && slot_of(#[trigger] shorter[k].0) == Some(i);
                assert(motors[k] == shorter[k]);
            }
        }
    }
}

} // verus!
