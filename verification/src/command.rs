//! Commands from the cognitive layer and how requests become commands.

use vstd::prelude::*;

verus! {

/// Number of joint angles that an end-to-end action must carry.
pub const ACTION_JOINTS: usize = 19;

/// The latest command from the cognitive layer, consumed by the control loop.
#[derive(Clone, Debug)]
pub enum BecomingCmd<S> {
    /// Walk with body velocity `(vx, vy)` and yaw rate `wz`.
    Move { vx: S, vy: S, wz: S },
    /// Stand still.
    Stop,
    /// Drive the joints directly to these angles.
    Act(Vec<S>),
}

/// A semantic command as the request carries it.
#[derive(Clone, Copy, Debug)]
pub enum SemanticCommand<S> {
    Move { vx: S, vy: S, wz: S },
    Stop,
    /// Turn in place at yaw rate `angle`.
    Turn { angle: S },
}

/// Why an end-to-end action is refused.
#[derive(Clone, Copy, Debug, PartialEq, Eq, Structural)]
pub enum ActError {
    /// The action does not hold exactly `ACTION_JOINTS` joint angles.
    WrongJointCount { got: usize },
}

impl ActError {
    /// The message the request is refused with.
    pub fn message(&self) -> (r: &'static str)
        ensures
            r@ == "joint_angles must have 19 elements"@,
    {
        match self {
            ActError::WrongJointCount { .. } => "joint_angles must have 19 elements",
        }
    }
}

/// The command a semantic request stands for: a turn is a move with no
/// linear velocity, and a request without a command is a stop.
pub open spec fn semantic_meaning<S>(cmd: Option<SemanticCommand<S>>, zero: S) -> BecomingCmd<S> {
    match cmd {
        Some(SemanticCommand::Move { vx, vy, wz }) => BecomingCmd::Move { vx, vy, wz },
        Some(SemanticCommand::Stop) => BecomingCmd::Stop,
        Some(SemanticCommand::Turn { angle }) => BecomingCmd::Move { vx: zero, vy: zero, wz: angle },
        None => BecomingCmd::Stop,
    }
}

/// Turns a semantic request into the command for the control loop; `zero`
/// is the scalar that stands for no velocity.
pub fn command_from_semantic<S: Copy>(cmd: Option<SemanticCommand<S>>, zero: S) -> (r: BecomingCmd<S>)
    ensures
        r == semantic_meaning(cmd, zero),
{
    match cmd {
        Some(SemanticCommand::Move { vx, vy, wz }) => BecomingCmd::Move { vx, vy, wz },
        Some(SemanticCommand::Stop) => BecomingCmd::Stop,
        Some(SemanticCommand::Turn { angle }) => BecomingCmd::Move { vx: zero, vy: zero, wz: angle },
        None => BecomingCmd::Stop,
    }
}

/// Turns an end-to-end action into a command: accepted exactly when it holds
/// `ACTION_JOINTS` joint angles, which it then carries unchanged.
pub fn command_from_action<S>(joint_angles: Vec<S>) -> (r: Result<BecomingCmd<S>, ActError>)
    ensures
        joint_angles.len() == ACTION_JOINTS ==> r == Ok::<BecomingCmd<S>, ActError>(
            BecomingCmd::Act(joint_angles),
        ),
        joint_angles.len() != ACTION_JOINTS ==> r == Err::<BecomingCmd<S>, ActError>(
            ActError::WrongJointCount { got: joint_angles.len() },
        ),
{
    let n = joint_angles.len();
    if n != ACTION_JOINTS {
        return Err(ActError::WrongJointCount { got: n });
    }
    Ok(BecomingCmd::Act(joint_angles))
}

} // verus!
