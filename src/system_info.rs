use vstd::prelude::*;

use crate::config::{joined, Config};
use crate::sampler::new_sampler;
use sysinfo::System;

verus! {

/// Name of the marker file whose modified time records the last sample.
pub const TOUCH_FILENAME: &'static str = "system_info.touch";

/// Seconds that must pass between two system samples.
pub const LOG_INTERVAL: i64 = 86400;

/// Whether a full interval has passed from `since` to `now`.
pub open spec fn interval_elapsed(since: int, now: int) -> bool {
    now >= since + LOG_INTERVAL
}

/// The in-memory tier: a sample was taken by this process less than an
/// interval ago.
pub open spec fn recently_logged_spec(last_logged: Option<i64>, now: i64) -> bool {
    match last_logged {
        Some(t) => !interval_elapsed(t as int, now as int),
        None => false,
    }
}

/// Whether a tick at `now` takes a sample, given the in-memory timestamp and
/// the marker file's modified time.
pub open spec fn should_log_spec(last_logged: Option<i64>, now: i64, marker_mtime: i64) -> bool {
    !recently_logged_spec(last_logged, now) && interval_elapsed(marker_mtime as int, now as int)
}

/// The marker file's modified time after a tick at `now`.
pub open spec fn marker_after(last_logged: Option<i64>, now: i64, marker_mtime: i64) -> i64 {
    if should_log_spec(last_logged, now, marker_mtime) {
        now
    } else {
        marker_mtime
    }
}

/// Whether a full interval has passed from `since` to `now`.
fn elapsed(since: i64, now: i64) -> (r: bool)
    ensures
        r == interval_elapsed(since as int, now as int),
{
    (now as i128) >= (since as i128) + (LOG_INTERVAL as i128)
}

/// Samples system metrics at most once per interval, across restarts.
///
/// The durable half of the throttle is the modified time of a marker file in
/// the temporary directory, which the caller reads and writes; this type keeps
/// the in-memory half, the marker file's name, and the one sampler instance.
pub struct SystemInfo {
    config: Config,
    last_logged: Option<i64>,
    sysinfo: Option<System>,
    touch_filename: Option<String>,
}

impl SystemInfo {
    pub closed spec fn tmp_dir_spec(&self) -> Seq<char> {
        self.config.tmp_dir_spec()
    }

    /// When this process last took a sample, if it has.
    pub closed spec fn last_logged_spec(&self) -> Option<i64> {
        self.last_logged
    }

    /// Whether the sampler instance has been built and is held.
    pub closed spec fn has_sampler(&self) -> bool {
        self.sysinfo is Some
    }

    /// The marker file's name, where it was computed already.
    pub closed spec fn touch_name_spec(&self) -> Option<Seq<char>> {
        match self.touch_filename {
            Some(s) => Some(s@),
            None => None,
        }
    }

    /// The marker file's path.
    pub open spec fn touch_path(&self) -> Seq<char> {
        joined(self.tmp_dir_spec(), TOUCH_FILENAME@)
    }

    /// The cached marker name is always the marker file's path.
    pub open spec fn wf(&self) -> bool {
        self.touch_name_spec() matches Some(n) ==> n == self.touch_path()
    }

    /// A fresh instance: no sample taken yet, no sampler built.
    pub fn new(config: Config) -> (r: SystemInfo)
        ensures
            r.wf(),
            r.tmp_dir_spec() == config.tmp_dir_spec(),
            r.last_logged_spec() is None,
            !r.has_sampler(),
    {
        SystemInfo { config, last_logged: None, sysinfo: None, touch_filename: None }
    }

    /// The marker file's path, computed on first use and kept.
    pub fn touch_filename(&mut self) -> (r: String)
        requires
            old(self).wf(),
        ensures
            r@ == old(self).touch_path(),
            final(self).wf(),
            final(self).tmp_dir_spec() == old(self).tmp_dir_spec(),
            final(self).last_logged_spec() == old(self).last_logged_spec(),
            final(self).has_sampler() == old(self).has_sampler(),
    {
        if self.touch_filename.is_none() {
            self.touch_filename = Some(crate::config::join_path(self.config.tmp_dir(), TOUCH_FILENAME));
        }
        match &self.touch_filename {
            Some(n) => n.clone(),
            None => crate::config::join_path(self.config.tmp_dir(), TOUCH_FILENAME),
        }
    }

    /// Hands out the sampler, building it first where none is held. The
    /// instance leaves `self` until it is given back with `set_sysinfo`.
    pub fn get_sysinfo(&mut self) -> (r: System)
        ensures
            !final(self).has_sampler(),
            final(self).tmp_dir_spec() == old(self).tmp_dir_spec(),
            final(self).last_logged_spec() == old(self).last_logged_spec(),
            final(self).touch_name_spec() == old(self).touch_name_spec(),
    {
        match self.sysinfo.take() {
            Some(s) => s,
            None => new_sampler(),
        }
    }

    /// Gives the sampler back, to be reused by later samples.
    pub fn set_sysinfo(&mut self, sysinfo: System)
        ensures
            final(self).has_sampler(),
            final(self).tmp_dir_spec() == old(self).tmp_dir_spec(),
            final(self).last_logged_spec() == old(self).last_logged_spec(),
            final(self).touch_name_spec() == old(self).touch_name_spec(),
    {
        self.sysinfo = Some(sysinfo);
    }

    /// The in-memory tier of the throttle: true where this process sampled
    /// less than an interval before `now`, so the marker file need not be read.
    pub fn recently_logged(&self, now: i64) -> (r: bool)
        ensures
            r == recently_logged_spec(self.last_logged_spec(), now),
    {
        match self.last_logged {
            Some(t) => !elapsed(t, now),
            None => false,
        }
    }

    /// Whether a tick at `now` takes a sample, given the marker file's
    /// modified time.
    pub fn should_log(&self, now: i64, marker_mtime: i64) -> (r: bool)
        ensures
            r == should_log_spec(self.last_logged_spec(), now, marker_mtime),
    {
        !self.recently_logged(now) && elapsed(marker_mtime, now)
    }

    /// One tick of the throttle at `now`, given the marker file's modified
    /// time. Where a sample is due, records `now` in memory, takes the sample
    /// with the kept sampler (built on first use), and returns the time the
    /// caller sets on the marker file; else changes nothing and returns `None`.
    pub fn collect(&mut self, now: i64, marker_mtime: i64) -> (r: Option<i64>)
        ensures
            r is Some == should_log_spec(old(self).last_logged_spec(), now, marker_mtime),
            r matches Some(t) ==> t == now,
            r matches Some(t) ==> t == marker_after(old(self).last_logged_spec(), now, marker_mtime),
            final(self).last_logged_spec() == (if r is Some {
                Some(now)
            } else {
                old(self).last_logged_spec()
            }),
            r is Some ==> final(self).has_sampler(),
            r is None ==> final(self).has_sampler() == old(self).has_sampler(),
            final(self).tmp_dir_spec() == old(self).tmp_dir_spec(),
            final(self).touch_name_spec() == old(self).touch_name_spec(),
    {
        if self.should_log(now, marker_mtime) {
            self.last_logged = Some(now);
            let sysinfo = self.get_sysinfo();
            self.set_sysinfo(sysinfo);
            Some(now)
        } else {
            None
        }
    }
}


/// A tick never moves the marker file's time back, and a tick that samples
/// moves it strictly forward, to the tick's time.
pub proof fn lemma_marker_moves_forward(last_logged: Option<i64>, now: i64, marker_mtime: i64)
    ensures
        marker_after(last_logged, now, marker_mtime) >= marker_mtime,
        should_log_spec(last_logged, now, marker_mtime) ==> marker_after(last_logged, now, marker_mtime)
            > marker_mtime,
{
}

/// At the edge of the interval: with the marker an interval and one second
/// before `now`, a tick samples and moves the marker to `now`; with the marker
/// one second before `now`, a tick does not sample and the marker stays. The
/// in-memory time, where there is one, is not later than the marker's.
pub proof fn lemma_tick_at_interval_edge(last_logged: Option<i64>, now: i64)
    requires
        now >= i64::MIN + LOG_INTERVAL + 1,
        last_logged matches Some(t) ==> t <= now - LOG_INTERVAL - 1,
    ensures
        should_log_spec(last_logged, now, (now - LOG_INTERVAL - 1) as i64),
        marker_after(last_logged, now, (now - LOG_INTERVAL - 1) as i64) == now,
        !should_log_spec(last_logged, now, (now - 1) as i64),
        marker_after(last_logged, now, (now - 1) as i64) == now - 1,
{
}

} // verus!
