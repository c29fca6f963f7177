use vstd::prelude::*;

use crate::config::{joined, Config, ModuleConfig};
use crate::system_info::{should_log_spec, SystemInfo};

verus! {

/// Name of the collector's log file, also the target of its singleton lock.
pub const LOG_FILENAME: &'static str = "collector.log";

/// Seconds the collector sleeps between two iterations.
pub const SLEEP_INTERVAL_SECS: u64 = 60;

/// Prefix of the names of the spool's metrics files.
pub const METRICS_PREFIX: &'static str = "metrics";

/// How a non-blocking attempt at an exclusive advisory lock came out.
#[derive(Clone, Copy, Debug, PartialEq, Eq, Structural)]
pub enum LockAttempt {
    /// The lock is now held by the caller.
    Acquired,
    /// Another holder has the lock.
    WouldBlock,
    /// The attempt failed for another reason.
    Failed,
}

/// What a collector iteration does after trying the singleton lock.
#[derive(Clone, Copy, Debug, PartialEq, Eq, Structural)]
pub enum SingletonAction {
    /// This instance owns the singleton slot: collect and drain the spool.
    Proceed,
    /// Another instance owns the slot: exit with code 0.
    ExitQuietly,
    /// The lock could not be tried: exit with code 1.
    ExitFatal,
}

/// What a drain pass does with one spool file after trying its lock.
#[derive(Clone, Copy, Debug, PartialEq, Eq, Structural)]
pub enum SpoolAction {
    /// Read the file, hand its content on, then delete it.
    Consume,
    /// A writer still holds the file: leave it for the next pass.
    Skip,
    /// The lock could not be tried: exit with code 1.
    ExitFatal,
}

pub open spec fn singleton_action_spec(attempt: LockAttempt) -> SingletonAction {
    match attempt {
        LockAttempt::Acquired => SingletonAction::Proceed,
        LockAttempt::WouldBlock => SingletonAction::ExitQuietly,
        LockAttempt::Failed => SingletonAction::ExitFatal,
    }
}

pub open spec fn spool_action_spec(attempt: LockAttempt) -> SpoolAction {
    match attempt {
        LockAttempt::Acquired => SpoolAction::Consume,
        LockAttempt::WouldBlock => SpoolAction::Skip,
        LockAttempt::Failed => SpoolAction::ExitFatal,
    }
}

/// Outcomes of racing attempts on one exclusive lock: at most one attempt
/// gets it, and every other one finds it held.
pub open spec fn exclusive_outcomes(attempts: Seq<LockAttempt>) -> bool {
    &&& forall|i: int, j: int|
        0 <= i < attempts.len() && 0 <= j < attempts.len() && attempts[i] is Acquired
            && attempts[j] is Acquired ==> i == j
    &&& forall|i: int| 0 <= i < attempts.len() ==> !(attempts[i] is Failed)
}

/// Whether `name` starts with `prefix`.
pub open spec fn has_prefix(name: Seq<char>, prefix: Seq<char>) -> bool {
    prefix.len() <= name.len() && name.subrange(0, prefix.len() as int) == prefix
}

/// The paths of the spool files among the directory entries `names` of `dir`,
/// in the order of the entries.
pub open spec fn spool_paths_spec(dir: Seq<char>, names: Seq<Seq<char>>) -> Seq<Seq<char>>
    decreases names.len(),
{
    if names.len() == 0 {
        seq![]
    } else {
        let rest = spool_paths_spec(dir, names.drop_last());
        if has_prefix(names.last(), METRICS_PREFIX@) {
            rest.push(joined(dir, names.last()))
        } else {
            rest
        }
    }
}

/// The texts of a vector of strings.
pub open spec fn texts(v: Seq<String>) -> Seq<Seq<char>> {
    v.map_values(|s: String| s@)
}

/// Among racing collector instances whose lock attempts come out as an
/// exclusive lock gives them, at most one proceeds past the singleton lock,
/// and every other one exits with code 0.
pub proof fn lemma_singleton_at_most_one(attempts: Seq<LockAttempt>)
    requires
        exclusive_outcomes(attempts),
    ensures
        forall|i: int, j: int|
            0 <= i < attempts.len() && 0 <= j < attempts.len() && singleton_action_spec(attempts[i])
                == SingletonAction::Proceed && singleton_action_spec(attempts[j])
                == SingletonAction::Proceed ==> i == j,
        forall|i: int|
            0 <= i < attempts.len() && singleton_action_spec(attempts[i]) != SingletonAction::Proceed
                ==> singleton_action_spec(attempts[i]) == SingletonAction::ExitQuietly,
{
}

/// Among racing drain passes whose lock attempts on one spool file come out as
/// an exclusive lock gives them, at most one reads and deletes the file; while
/// a writer holds the lock, so that every attempt finds it held, none does.
pub proof fn lemma_spool_single_consumer(attempts: Seq<LockAttempt>)
    requires
        exclusive_outcomes(attempts),
    ensures
        forall|i: int, j: int|
            0 <= i < attempts.len() && 0 <= j < attempts.len() && spool_action_spec(attempts[i])
                == SpoolAction::Consume && spool_action_spec(attempts[j]) == SpoolAction::Consume
                ==> i == j,
        (forall|i: int| 0 <= i < attempts.len() ==> attempts[i] is WouldBlock) ==> forall|i: int|
            0 <= i < attempts.len() ==> spool_action_spec(attempts[i]) == SpoolAction::Skip,
{
}

/// Whether `name` starts with `prefix`.
pub fn starts_with(name: &str, prefix: &str) -> (r: bool)
    ensures
        r == has_prefix(name@, prefix@),
{
    let n = name.unicode_len();
    let p = prefix.unicode_len();
    if p > n {
        return false;
    }
    let mut i: usize = 0;
    while i < p
        invariant
            p == prefix@.len(),
            n == name@.len(),
            p <= n,
            i <= p,
            forall|k: int| 0 <= k < i ==> name@[k] == prefix@[k],
        decreases p - i,
    {
        if name.get_char(i) != prefix.get_char(i) {
            assert(name@.subrange(0, p as int)[i as int] != prefix@[i as int]);
            return false;
        }
        i = i + 1;
    }
    assert(name@.subrange(0, p as int) =~= prefix@);
    true
}

/// Whether a directory entry is a spool file.
pub fn is_spool_entry(name: &str) -> (r: bool)
    ensures
        r == has_prefix(name@, METRICS_PREFIX@),
{
    starts_with(name, METRICS_PREFIX)
}

/// What a drain pass does with a spool file, given how its lock attempt came
/// out.
pub fn spool_action(attempt: LockAttempt) -> (r: SpoolAction)
    ensures
        r == spool_action_spec(attempt),
{
    match attempt {
        LockAttempt::Acquired => SpoolAction::Consume,
        LockAttempt::WouldBlock => SpoolAction::Skip,
        LockAttempt::Failed => SpoolAction::ExitFatal,
    }
}

/// The paths of the spool files among the entries `names` of `dir`, in the
/// order of the entries.
pub fn spool_paths(dir: &str, names: &Vec<String>) -> (r: Vec<String>)
    ensures
        texts(r@) == spool_paths_spec(dir@, texts(names@)),
{
    let mut r: Vec<String> = Vec::new();
    let mut i: usize = 0;
    while i < names.len()
        invariant
            i <= names@.len(),
            texts(r@) == spool_paths_spec(dir@, texts(names@).take(i as int)),
        decreases names@.len() - i,
    {
        let name = names[i].as_str();
        proof {
            assert(texts(names@).take(i + 1).drop_last() =~= texts(names@).take(i as int));
            assert(texts(names@).take(i + 1).last() == names@[i as int]@);
        }
        if is_spool_entry(name) {
            let path = crate::config::join_path(dir, name);
            r.push(path);
            assert(texts(r@) =~= spool_paths_spec(dir@, texts(names@).take(i as int)).push(path@));
        }
        i = i + 1;
    }
    assert(texts(names@).take(names@.len() as int) =~= texts(names@));
    r
}

/// Pushes the metrics files of the spool on, one iteration after another,
/// while it holds the singleton lock.
pub struct Collector {
    config: Config,
    holds_lock: bool,
    system_info: SystemInfo,
}

impl ModuleConfig for Collector {
    open spec fn log_name() -> Seq<char> {
        LOG_FILENAME@
    }

    fn log_filename() -> (r: &'static str) {
        LOG_FILENAME
    }
}

impl Collector {
    pub closed spec fn log_filename_spec(&self) -> Seq<char> {
        self.config.log_filename_spec()
    }

    pub closed spec fn tmp_dir_spec(&self) -> Seq<char> {
        self.config.tmp_dir_spec()
    }

    /// Whether the current iteration holds the singleton lock.
    pub closed spec fn holds_lock_spec(&self) -> bool {
        self.holds_lock
    }

    pub closed spec fn system_info_spec(&self) -> SystemInfo {
        self.system_info
    }

    /// A collector that holds no lock, with a rate limiter of its own.
    pub fn new(config: Config, system_info: SystemInfo) -> (r: Collector)
        ensures
            r.log_filename_spec() == config.log_filename_spec(),
            r.tmp_dir_spec() == config.tmp_dir_spec(),
            !r.holds_lock_spec(),
            r.system_info_spec() == system_info,
    {
        Collector { config, holds_lock: false, system_info }
    }

    /// The file that the singleton lock is taken on.
    pub fn log_path(&self) -> (r: &str)
        ensures
            r@ == self.log_filename_spec(),
    {
        self.config.log_filename()
    }

    /// The directory that holds the spool.
    pub fn tmp_dir(&self) -> (r: &str)
        ensures
            r@ == self.tmp_dir_spec(),
    {
        self.config.tmp_dir()
    }

    /// The collector's rate limiter.
    pub fn system_info(&mut self) -> (r: &mut SystemInfo)
        ensures
            *r == old(self).system_info_spec(),
            final(self).system_info_spec() == *final(r),
            final(self).log_filename_spec() == old(self).log_filename_spec(),
            final(self).tmp_dir_spec() == old(self).tmp_dir_spec(),
            final(self).holds_lock_spec() == old(self).holds_lock_spec(),
    {
        &mut self.system_info
    }

    /// The start of an iteration: the lock held by the previous iteration is
    /// given up, however the previous attempt came out, so that the caller
    /// opens the log file afresh (creating it where it was removed) and tries
    /// the lock on it. What the iteration does then depends on that attempt
    /// alone.
    pub fn enforce_singleton(&mut self, attempt: LockAttempt) -> (r: SingletonAction)
        ensures
            r == singleton_action_spec(attempt),
            final(self).holds_lock_spec() == (attempt == LockAttempt::Acquired),
            final(self).log_filename_spec() == old(self).log_filename_spec(),
            final(self).tmp_dir_spec() == old(self).tmp_dir_spec(),
            final(self).system_info_spec() == old(self).system_info_spec(),
    {
        self.holds_lock = false;
        match attempt {
            LockAttempt::Acquired => {
                self.holds_lock = true;
                SingletonAction::Proceed
            },
            LockAttempt::WouldBlock => SingletonAction::ExitQuietly,
            LockAttempt::Failed => SingletonAction::ExitFatal,
        }
    }

    /// One tick of the rate limiter, taken only by the iteration that holds
    /// the singleton lock: as `SystemInfo::collect`.
    pub fn collect(&mut self, now: i64, marker_mtime: i64) -> (r: Option<i64>)
        requires
            old(self).holds_lock_spec(),
        ensures
            r is Some == should_log_spec(
                old(self).system_info_spec().last_logged_spec(),
                now,
                marker_mtime,
            ),
            r matches Some(t) ==> t == now,
            final(self).system_info_spec().last_logged_spec() == (if r is Some {
                Some(now)
            } else {
                old(self).system_info_spec().last_logged_spec()
            }),
            final(self).holds_lock_spec(),
            final(self).log_filename_spec() == old(self).log_filename_spec(),
            final(self).tmp_dir_spec() == old(self).tmp_dir_spec(),
    {
        self.system_info.collect(now, marker_mtime)
    }

    /// The spool files to try in this iteration's drain pass, given the
    /// entries of the spool directory; only the lock holder drains.
    pub fn metrics_files(&self, names: &Vec<String>) -> (r: Vec<String>)
        requires
            self.holds_lock_spec(),
        ensures
            texts(r@) == spool_paths_spec(self.tmp_dir_spec(), texts(names@)),
    {
        spool_paths(self.config.tmp_dir(), names)
    }
}

} // verus!
