//! The job-control policy: what becomes of the signals by which the
//! terminal stops a job.

use vstd::prelude::*;

verus! {

/// The signals by which the terminal stops a job: the stop key, and input
/// or output by a job that is not in the foreground.
#[derive(Debug, PartialEq, Eq, Structural, Clone, Copy)]
pub enum StopSignal {
    Tstp,
    Ttin,
    Ttou,
}

/// What a process does when a signal arrives.
#[derive(Debug, PartialEq, Eq, Structural, Clone, Copy)]
pub enum Disposition {
    /// Nothing.
    Ignore,
    /// What the system does by default: for a stop signal, stop.
    Default,
}

/// The processes that the policy tells apart.
#[derive(Debug, PartialEq, Eq, Structural, Clone, Copy)]
pub enum Role {
    /// The interactive shell itself.
    Shell,
    /// A process that the shell has created, before it runs its program.
    Child,
}

/// The policy, as a value: the shell is never stopped by the terminal,
/// the programs that it runs can be.
pub open spec fn policy(role: Role, signal: StopSignal) -> Disposition {
    match role {
        Role::Shell => Disposition::Ignore,
        Role::Child => Disposition::Default,
    }
}

/// What a process in the role `role` does with `signal`.
pub fn disposition(role: Role, signal: StopSignal) -> (d: Disposition)
    ensures
        d == policy(role, signal),
{
    match role {
        Role::Shell => Disposition::Ignore,
        Role::Child => Disposition::Default,
    }
}

/// The signals that the policy is about.
pub fn stop_signals() -> (signals: Vec<StopSignal>)
    ensures
        signals@ == seq![StopSignal::Tstp, StopSignal::Ttin, StopSignal::Ttou],
{
    let mut signals: Vec<StopSignal> = Vec::new();
    signals.push(StopSignal::Tstp);
    signals.push(StopSignal::Ttin);
    signals.push(StopSignal::Ttou);
    assert(signals@ =~= seq![StopSignal::Tstp, StopSignal::Ttin, StopSignal::Ttou]);
    signals
}

} // verus!
