//! Process handle adapter: the capability set the scheduler needs from the
//! host OS, reduced to plain values. Signal delivery and status polling go
//! through the `nix` crate; identifier generation goes through `ulid`.

use vstd::prelude::*;

verus! {

/// What one non-blocking wait poll of a child process reported.
#[derive(Debug, PartialEq, Eq, Structural, Copy, Clone)]
pub enum WaitProbe {
    /// The process has not changed state; it is still alive.
    Alive,
    /// The process exited on its own with the given exit code.
    Exited(i32),
    /// The process changed state some other way (killed by a signal,
    /// stopped, continued).
    OtherChange,
}

/// Relies on `ulid::Ulid::generate`: a fresh 128-bit ULID built from the
/// current time and random bits. Nothing is promised of the value; it
/// depends on the clock and on a random source.
#[verifier::external_body]
pub(crate) fn fresh_id() -> u128 {
    ulid::Ulid::generate().0
}

/// Relies on `nix::sys::signal::kill` with `SIGSTOP`: asks the OS to stop
/// the process `pid`. Whether the call succeeds depends on the state of the
/// OS, so nothing is promised of the result.
#[verifier::external_body]
pub(crate) fn send_stop(pid: i32) -> Result<(), i32> {
    match nix::sys::signal::kill(
        nix::unistd::Pid::from_raw(pid),
        nix::sys::signal::Signal::SIGSTOP,
    ) {
        Ok(()) => Ok(()),
        Err(e) => Err(e as i32),
    }
}

/// Relies on `nix::sys::signal::kill` with `SIGCONT`: asks the OS to let
/// the stopped process `pid` continue. Whether the call succeeds depends on
/// the state of the OS, so nothing is promised of the result.
#[verifier::external_body]
pub(crate) fn send_continue(pid: i32) -> Result<(), i32> {
    match nix::sys::signal::kill(
        nix::unistd::Pid::from_raw(pid),
        nix::sys::signal::Signal::SIGCONT,
    ) {
        Ok(()) => Ok(()),
        Err(e) => Err(e as i32),
    }
}

/// Relies on `nix::sys::wait::waitpid` with `WNOHANG`: a non-blocking poll
/// of the child `pid`, reduced to a plain value — still alive, exited with
/// a code, some other state change, or the `errno` value when the query
/// itself failed. The answer depends on the state of the OS at the moment
/// of the poll, so nothing is promised of it; what each answer means is
/// decided by the verified classification on top.
#[verifier::external_body]
pub(crate) fn probe_child(pid: i32) -> Result<WaitProbe, i32> {
    match nix::sys::wait::waitpid(
        nix::unistd::Pid::from_raw(pid),
        Some(nix::sys::wait::WaitPidFlag::WNOHANG),
    ) {
        Ok(nix::sys::wait::WaitStatus::StillAlive) => Ok(WaitProbe::Alive),
        Ok(nix::sys::wait::WaitStatus::Exited(_, code)) => Ok(WaitProbe::Exited(code)),
        Ok(_) => Ok(WaitProbe::OtherChange),
        Err(e) => Err(e as i32),
    }
}

} // verus!
