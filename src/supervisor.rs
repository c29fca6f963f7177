use vstd::prelude::*;

use crate::config::{Config, ModuleConfig};
use crate::sampler::{new_sampler, process_present, refresh_process};
use sysinfo::System;

verus! {

/// Name of the supervisor's log file.
pub const LOG_FILENAME: &'static str = "supervisor.log";

/// Seconds between two polls of the tracked parent.
pub const SLEEP_INTERVAL_SECS: u64 = 60;

/// How a wait on the tracked child came back.
#[derive(Clone, Copy, Debug, PartialEq, Eq, Structural)]
pub enum WaitResult {
    /// The child exited with this status.
    Exited(i32),
    /// The child was terminated by this signal.
    Signaled(i32),
    /// Any other result of the wait, an error included.
    Other,
}

/// The outcome of one child-supervision session.
#[derive(Clone, Copy, Debug, PartialEq, Eq, Structural)]
pub enum ExitOutcome {
    ExitedWithCode(i32),
    KilledBySignal(i32),
    /// Neither a clean exit nor a signal: the supervisor exits with code 1.
    Unknown,
}

/// What the parent-supervision loop does after one poll.
#[derive(Clone, Copy, Debug, PartialEq, Eq, Structural)]
pub enum PollAction {
    /// The parent is alive: record its metrics and sleep one interval.
    RecordAndSleep,
    /// The parent is gone: record the final metrics and exit with code 0.
    RecordFinalAndExit,
}

pub open spec fn classify_wait_spec(w: WaitResult) -> ExitOutcome {
    match w {
        WaitResult::Exited(status) => ExitOutcome::ExitedWithCode(status),
        WaitResult::Signaled(signal) => ExitOutcome::KilledBySignal(signal),
        WaitResult::Other => ExitOutcome::Unknown,
    }
}

/// The value captured for an outcome, none for an unknown one.
pub open spec fn outcome_value_spec(o: ExitOutcome) -> Option<i32> {
    match o {
        ExitOutcome::ExitedWithCode(status) => Some(status),
        ExitOutcome::KilledBySignal(signal) => Some(signal),
        ExitOutcome::Unknown => None,
    }
}

pub open spec fn poll_action_spec(parent_present: bool) -> PollAction {
    if parent_present {
        PollAction::RecordAndSleep
    } else {
        PollAction::RecordFinalAndExit
    }
}

/// The number of sleeps the poll loop makes before it exits, given whether
/// the parent was seen at each poll.
pub open spec fn sleeps_before_exit(polls: Seq<bool>) -> nat
    decreases polls.len(),
{
    if polls.len() == 0 {
        0
    } else if poll_action_spec(polls[0]) == PollAction::RecordFinalAndExit {
        0
    } else {
        1 + sleeps_before_exit(polls.drop_first())
    }
}

/// The poll loop exits at the first poll that no longer sees the parent: if
/// the parent was seen at polls `0..k` and is gone at poll `k`, the loop has
/// slept exactly `k` times, so at most one sleep follows the parent's end.
pub proof fn lemma_exit_at_first_absence(polls: Seq<bool>, k: int)
    requires
        0 <= k < polls.len(),
        !polls[k],
        forall|i: int| 0 <= i < k ==> polls[i],
    ensures
        sleeps_before_exit(polls) == k,
    decreases k,
{
    if k > 0 {
        let rest = polls.drop_first();
        assert forall|i: int| 0 <= i < k - 1 implies rest[i] by {
            assert(rest[i] == polls[i + 1]);
        }
        assert(rest[k - 1] == polls[k]);
        lemma_exit_at_first_absence(rest, k - 1);
    }
}

/// Reports on one tracked process, the caller's child or its parent.
pub struct Supervisor {
    config: Config,
}

impl ModuleConfig for Supervisor {
    open spec fn log_name() -> Seq<char> {
        LOG_FILENAME@
    }

    fn log_filename() -> (r: &'static str) {
        LOG_FILENAME
    }
}

impl Supervisor {
    pub closed spec fn log_filename_spec(&self) -> Seq<char> {
        self.config.log_filename_spec()
    }

    pub fn new(config: Config) -> (r: Supervisor)
        ensures
            r.log_filename_spec() == config.log_filename_spec(),
    {
        Supervisor { config }
    }

    /// The file that the supervisor's standard error goes to.
    pub fn log_path(&self) -> (r: &str)
        ensures
            r@ == self.log_filename_spec(),
    {
        self.config.log_filename()
    }

    /// The outcome of a wait on the tracked child.
    pub fn classify_wait(w: WaitResult) -> (r: ExitOutcome)
        ensures
            r == classify_wait_spec(w),
    {
        match w {
            WaitResult::Exited(status) => ExitOutcome::ExitedWithCode(status),
            WaitResult::Signaled(signal) => ExitOutcome::KilledBySignal(signal),
            WaitResult::Other => ExitOutcome::Unknown,
        }
    }

    /// The value captured for an outcome: the exit status or the signal
    /// number; none for an unknown outcome, on which the supervisor exits
    /// with code 1.
    pub fn outcome_value(o: ExitOutcome) -> (r: Option<i32>)
        ensures
            r == outcome_value_spec(o),
    {
        match o {
            ExitOutcome::ExitedWithCode(status) => Some(status),
            ExitOutcome::KilledBySignal(signal) => Some(signal),
            ExitOutcome::Unknown => None,
        }
    }

    /// What the poll loop does, given whether the parent is still present.
    pub fn poll_action(parent_present: bool) -> (r: PollAction)
        ensures
            r == poll_action_spec(parent_present),
    {
        if parent_present {
            PollAction::RecordAndSleep
        } else {
            PollAction::RecordFinalAndExit
        }
    }

    /// The sampler the poll loop keeps for its whole run, built once.
    pub fn sampler(&self) -> System {
        new_sampler()
    }

    /// One poll of the tracked parent: refreshes the sampler's view of it and
    /// decides by whether it is still there, as `poll_action` does. Which of
    /// the two actions comes depends on the machine.
    pub fn poll_parent(&self, sampler: &mut System, parent_pid: u32) -> PollAction {
        refresh_process(sampler, parent_pid);
        let present = process_present(sampler, parent_pid);
        Self::poll_action(present)
    }
}

} // verus!
