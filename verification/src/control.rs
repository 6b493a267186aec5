//! Decisions of the control loop: which command mode drives the robot on
//! each tick, when the robot is reset after a fall, and when progress is
//! reported.

use vstd::prelude::*;
use crate::command::BecomingCmd;

verus! {

/// Control rate on real hardware, in ticks per second.
pub const REAL_HZ: u64 = 500;

/// Control rate in simulation, in ticks per second.
pub const SIM_HZ: u64 = 50;

/// Highest control rate whose tick period is still a whole number of
/// microseconds above zero.
pub const MAX_HZ: u64 = 1_000_000;

/// Seconds between two progress reports.
pub const REPORT_SECONDS: u64 = 5;

/// The control rate for real hardware or for simulation.
pub fn control_rate(on_hardware: bool) -> (hz: u64)
    ensures
        hz == if on_hardware { REAL_HZ } else { SIM_HZ },
{
    if on_hardware {
        REAL_HZ
    } else {
        SIM_HZ
    }
}

/// The tick period in microseconds for a control rate of `hz` ticks per second.
pub fn tick_period_micros(hz: u64) -> (period: u64)
    requires
        0 < hz <= MAX_HZ,
    ensures
        period == 1_000_000int / (hz as int),
        period >= 1,
{
    assert(1_000_000int / (hz as int) >= 1) by (nonlinear_arith)
        requires
            0 < hz <= 1_000_000,
    ;
    1_000_000 / hz
}

/// What the loop does on a tick.
#[derive(Debug)]
pub enum TickAction<S> {
    /// The robot has fallen: reset the robot and the brain, publish the fresh
    /// sensor state, and skip this tick.
    Reset,
    /// Step the robot. With `joints`, drive the joints end to end to those
    /// angles (after the joint-limit guard); without, let the brain generate a
    /// gait for `velocity`. `velocity` is the desired body velocity either way.
    /// `report` asks for a progress line after the step.
    Step { joints: Option<Vec<S>>, velocity: [S; 3], report: bool },
}

/// The command state of the control loop.
#[derive(Debug)]
pub struct ControlState<S> {
    /// Desired body velocity `[vx, vy, wz]`.
    pub target_vel: [S; 3],
    /// Joint angles of the end-to-end mode, when that mode is on.
    pub e2e_action: Option<Vec<S>>,
    /// Number of steps taken so far.
    pub step: u64,
    /// Control rate in ticks per second.
    pub hz: u64,
    /// The scalar that stands for no velocity.
    pub zero: S,
}

impl<S> ControlState<S> {
    /// The state is usable: its rate is positive, gives a whole tick period,
    /// and the report interval fits in a `u64`.
    pub open spec fn wf(self) -> bool {
        0 < self.hz <= MAX_HZ
    }

    /// The velocity at rest.
    pub open spec fn rest(self) -> [S; 3] {
        [self.zero, self.zero, self.zero]
    }

    /// The state after taking a command.
    pub open spec fn commanded(self, cmd: BecomingCmd<S>) -> Self {
        match cmd {
            BecomingCmd::Move { vx, vy, wz } => ControlState {
                target_vel: [vx, vy, wz],
                e2e_action: None,
                ..self
            },
            BecomingCmd::Stop => ControlState { target_vel: self.rest(), e2e_action: None, ..self },
            BecomingCmd::Act(angles) => ControlState { e2e_action: Some(angles), ..self },
        }
    }

    /// The state after an optional new command.
    pub open spec fn after_command(self, cmd: Option<BecomingCmd<S>>) -> Self {
        match cmd {
            Some(c) => self.commanded(c),
            None => self,
        }
    }

    /// A progress report is due at this step: once every `REPORT_SECONDS`
    /// seconds of ticks.
    pub open spec fn report_due(self) -> bool {
        self.step as int % (self.hz as int * REPORT_SECONDS as int) == 0
    }

    /// The state after a tick in which the robot was found fallen.
    pub open spec fn fallen(self) -> Self {
        ControlState { target_vel: self.rest(), e2e_action: None, ..self }
    }

    /// The state after a tick that stepped the robot.
    pub open spec fn stepped(self) -> Self {
        ControlState { step: (self.step + 1) as u64, ..self }
    }

    /// The action of a tick that steps the robot.
    pub open spec fn step_action(self) -> TickAction<S> {
        TickAction::Step {
            joints: self.e2e_action,
            velocity: self.target_vel,
            report: self.report_due(),
        }
    }
}

/// `a` and `b` hold the same actions with the same joint angles.
pub open spec fn same_action<S>(a: TickAction<S>, b: TickAction<S>) -> bool {
    match (a, b) {
        (TickAction::Reset, TickAction::Reset) => true,
        (
            TickAction::Step { joints: j1, velocity: v1, report: r1 },
            TickAction::Step { joints: j2, velocity: v2, report: r2 },
        ) => v1 == v2 && r1 == r2 && match (j1, j2) {
            (None, None) => true,
            (Some(x), Some(y)) => x@ == y@,
            _ => false,
        },
        _ => false,
    }
}

/// Copies joint angles.
fn copy_angles<S: Copy>(v: &Vec<S>) -> (r: Vec<S>)
    ensures
        r@ == v@,
{
    let mut r: Vec<S> = Vec::new();
    let n = v.len();
    let mut i: usize = 0;
    while i < n
        invariant
            n == v@.len(),
            0 <= i <= n,
            r@ == v@.take(i as int),
        decreases n - i,
    {
        r.push(v[i]);
        proof {
            assert(v@.take(i + 1) =~= v@.take(i as int).push(v@[i as int]));
        }
        i = i + 1;
    }
    proof {
        assert(v@.take(n as int) =~= v@);
    }
    r
}

impl<S: Copy> ControlState<S> {
    /// A fresh loop at `hz` ticks per second: at rest, gait mode, no steps.
    pub fn new(hz: u64, zero: S) -> (r: Self)
        requires
            0 < hz <= MAX_HZ,
        ensures
            r.wf(),
            r.hz == hz,
            r.zero == zero,
            r.target_vel == r.rest(),
            r.e2e_action is None,
            r.step == 0,
    {
        ControlState { target_vel: [zero, zero, zero], e2e_action: None, step: 0, hz, zero }
    }

    /// Takes a command: a move sets the velocity and leaves end-to-end mode, a
    /// stop sets the velocity to rest and leaves end-to-end mode, an action
    /// enters end-to-end mode and keeps the velocity.
    pub fn apply_command(&mut self, cmd: BecomingCmd<S>)
        ensures
            *final(self) == old(self).commanded(cmd),
            final(self).zero == old(self).zero,
            final(self).hz == old(self).hz,
            final(self).step == old(self).step,
            cmd matches BecomingCmd::Move { vx, vy, wz } ==> final(self).target_vel == [vx, vy, wz]
                && final(self).e2e_action is None,
            cmd is Stop ==> final(self).target_vel == [old(self).zero, old(self).zero, old(
                self,
            ).zero] && final(self).e2e_action is None,
            cmd matches BecomingCmd::Act(angles) ==> final(self).e2e_action == Some(angles)
                && final(self).target_vel == old(self).target_vel,
    {
        match cmd {
            BecomingCmd::Move { vx, vy, wz } => {
                self.target_vel = [vx, vy, wz];
                self.e2e_action = None;
            },
            BecomingCmd::Stop => {
                self.target_vel = [self.zero, self.zero, self.zero];
                self.e2e_action = None;
            },
            BecomingCmd::Act(angles) => {
                self.e2e_action = Some(angles);
            },
        }
    }

    /// One tick of the control loop. A new command, if any, is taken first.
    /// If the robot is not stable the tick resets: velocity to rest, gait mode,
    /// and the step count is kept. Otherwise the robot is stepped in the
    /// current mode and the step count grows by one.
    pub fn tick(&mut self, cmd: Option<BecomingCmd<S>>, stable: bool) -> (act: TickAction<S>)
        requires
            old(self).wf(),
            old(self).step < u64::MAX,
        ensures
            final(self).wf(),
            !stable ==> act is Reset && *final(self) == old(self).after_command(cmd).fallen(),
            stable ==> same_action(act, old(self).after_command(cmd).step_action())
                && *final(self) == old(self).after_command(cmd).stepped(),
            final(self).zero == old(self).zero,
            final(self).hz == old(self).hz,
            stable ==> final(self).step == old(self).step + 1,
            !stable ==> final(self).step == old(self).step,
            !stable ==> final(self).target_vel == [old(self).zero, old(self).zero, old(
                self,
            ).zero] && final(self).e2e_action is None,
            stable ==> (act matches TickAction::Step { report, .. } && report == (old(self).step
                as int % (old(self).hz as int * REPORT_SECONDS as int) == 0)),
            stable ==> (cmd matches Some(BecomingCmd::Act(angles)) ==> (act matches TickAction::Step {
                joints: Some(j),
                ..
            } && j@ == angles@)),
    {
        match cmd {
            Some(c) => self.apply_command(c),
            None => {},
        }
        if !stable {
            self.target_vel = [self.zero, self.zero, self.zero];
            self.e2e_action = None;
            return TickAction::Reset;
        }
        let joints = match &self.e2e_action {
            Some(angles) => Some(copy_angles(angles)),
            None => None,
        };
        let report = self.step % (self.hz * REPORT_SECONDS) == 0;
        let act = TickAction::Step { joints, velocity: self.target_vel, report };
        self.step = self.step + 1;
        act
    }
}

/// Every command keeps the control rate, the step count and the scalar that
/// stands for rest; an end-to-end action replaces whatever action was in force
/// (and keeps the velocity), and a move or stop sets the velocity it names.
pub proof fn lemma_command_effects<S>(state: ControlState<S>, cmd: BecomingCmd<S>)
    ensures
        state.commanded(cmd).zero == state.zero,
        state.commanded(cmd).hz == state.hz,
        state.commanded(cmd).step == state.step,
        cmd matches BecomingCmd::Act(angles) ==> state.commanded(cmd).e2e_action == Some(angles)
            && state.commanded(cmd).target_vel == state.target_vel,
        cmd matches BecomingCmd::Move { vx, vy, wz } ==> state.commanded(cmd).target_vel == [
            vx,
            vy,
            wz,
        ] && state.commanded(cmd).e2e_action is None,
        cmd is Stop ==> state.commanded(cmd).target_vel == [state.zero, state.zero, state.zero]
            && state.commanded(cmd).e2e_action is None,
{
}

/// The newest end-to-end action wins: two actions in a row leave the second
/// in force, whatever mode the loop was in.
pub proof fn lemma_newest_action_wins<S>(state: ControlState<S>, first: Vec<S>, second: Vec<S>)
    ensures
        state.commanded(BecomingCmd::Act(first)).commanded(BecomingCmd::Act(second)).e2e_action
            == Some(second),
{
}

/// Every stable tick counts exactly one step, in either mode, and a fall
/// counts none; no tick changes the control rate or the scalar for rest.
pub proof fn lemma_tick_counts_steps<S>(state: ControlState<S>, cmd: Option<BecomingCmd<S>>)
    requires
        state.step < u64::MAX,
    ensures
        state.after_command(cmd).stepped().step == state.step + 1,
        state.after_command(cmd).fallen().step == state.step,
        state.after_command(cmd).stepped().zero == state.zero,
        state.after_command(cmd).fallen().zero == state.zero,
        state.after_command(cmd).stepped().hz == state.hz,
        state.after_command(cmd).fallen().hz == state.hz,
        state.after_command(cmd).fallen().target_vel == [state.zero, state.zero, state.zero],
{
}

/// A stop after a fall still stands the robot at the original rest value.
pub proof fn lemma_stop_after_fall_rests<S>(state: ControlState<S>, cmd: Option<BecomingCmd<S>>)
    ensures
        state.after_command(cmd).fallen().commanded(BecomingCmd::Stop).target_vel == [
            state.zero,
            state.zero,
            state.zero,
        ],
{
}

/// A stop followed by a stable tick stands the robot still in gait mode.
pub proof fn lemma_stop_stands_still<S>(state: ControlState<S>)
    ensures
        state.after_command(Some(BecomingCmd::Stop)).step_action() matches TickAction::Step {
            joints,
            velocity,
            ..
        } && joints is None && velocity == state.rest(),
{
}

/// A fall always leaves the loop at rest in gait mode, whatever it was doing
/// and whatever command arrived, with the step count unchanged.
pub proof fn lemma_fall_resets_to_rest<S>(state: ControlState<S>, cmd: Option<BecomingCmd<S>>)
    ensures
        state.after_command(cmd).fallen().target_vel == state.rest(),
        state.after_command(cmd).fallen().e2e_action is None,
        state.after_command(cmd).fallen().step == state.step,
        state.after_command(cmd).fallen().hz == state.hz,
{
}

/// An end-to-end action keeps the velocity set by the last move, and drives
/// exactly the joint angles it carries.
pub proof fn lemma_action_keeps_velocity<S>(state: ControlState<S>, vx: S, vy: S, wz: S, angles: Vec<S>)
    ensures
        ({
            let s = state.commanded(BecomingCmd::Move { vx, vy, wz }).commanded(
                BecomingCmd::Act(angles),
            );
            s.step_action() matches TickAction::Step { joints, velocity, .. } && joints == Some(
                angles,
            ) && velocity == [vx, vy, wz]
        }),
{
}

/// A move or a stop ends end-to-end mode: the next stable tick is driven by
/// the gait again.
pub proof fn lemma_move_or_stop_leaves_e2e<S>(state: ControlState<S>, cmd: BecomingCmd<S>)
    requires
        !(cmd is Act),
    ensures
        state.commanded(cmd).e2e_action is None,
{
}

/// Only stable ticks count as steps, and reports come exactly when the step
/// count is a multiple of `REPORT_SECONDS * hz`, so the first stable tick
/// reports and the next report comes `REPORT_SECONDS * hz` steps later.
pub proof fn lemma_report_cadence<S>(state: ControlState<S>, k: nat)
    requires
        state.wf(),
        state.step as int % (state.hz as int * REPORT_SECONDS as int) == 0,
        0 < k < state.hz as int * REPORT_SECONDS as int,
        state.step as int + k <= u64::MAX,
    ensures
        state.report_due(),
        !(ControlState { step: (state.step + k) as u64, ..state }).report_due(),
{
    let p = state.hz as int * REPORT_SECONDS as int;
    let s = state.step as int;
    assert((s + k) % p == k) by (nonlinear_arith)
        requires
            s % p == 0,
            0 < k < p,
    ;
}

} // verus!
