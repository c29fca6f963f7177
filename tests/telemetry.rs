use forc_telemetry::collector::{
    is_spool_entry, spool_action, Collector, LockAttempt, SingletonAction, SpoolAction,
    LOG_FILENAME as COLLECTOR_LOG,
};
use forc_telemetry::config::{join_path, Config, Environment, ModuleConfig};
use forc_telemetry::supervisor::{ExitOutcome, PollAction, Supervisor, WaitResult};
use forc_telemetry::system_info::{SystemInfo, LOG_INTERVAL};
use forc_telemetry::{
    is_shell, last_component, launch, max_fd, parent_mode_plan, supervise_child_process,
    supervise_parent_process, ForkSide, Launch, Stage,
};

fn env_with_home(home: &str) -> Environment {
    Environment {
        fuelup_home: None,
        fuelup_log: None,
        fuelup_tmp: None,
        home_dir: Some(home.to_string()),
    }
}

fn collector_config() -> Config {
    Config::resolve(&env_with_home("/home/user"), <Collector as ModuleConfig>::log_filename()).unwrap()
}

#[test]
fn join_path_inserts_one_separator() {
    assert_eq!(join_path("/a/b", "c"), "/a/b/c");
    assert_eq!(join_path("/a/b/", "c"), "/a/b/c");
    assert_eq!(join_path("", "c"), "c");
    assert_eq!(join_path("/a", "/etc"), "/etc");
}

#[test]
fn config_defaults_under_home() {
    let c = collector_config();
    assert_eq!(c.log_dir(), "/home/user/.fuelup/log");
    assert_eq!(c.log_filename(), "/home/user/.fuelup/log/collector.log");
    assert_eq!(c.tmp_dir(), "/home/user/.fuelup/tmp");
}

#[test]
fn config_overrides_win() {
    let env = Environment {
        fuelup_home: Some("/opt/fuel".to_string()),
        fuelup_log: Some("/var/log/fuel".to_string()),
        fuelup_tmp: None,
        home_dir: None,
    };
    let c = Config::resolve(&env, <Supervisor as ModuleConfig>::log_filename()).unwrap();
    assert_eq!(c.log_filename(), "/var/log/fuel/supervisor.log");
    assert_eq!(c.tmp_dir(), "/opt/fuel/tmp");
}

#[test]
fn module_log_file_names() {
    assert_eq!(<Collector as ModuleConfig>::log_filename(), "collector.log");
    assert_eq!(<Supervisor as ModuleConfig>::log_filename(), "supervisor.log");
    let c = Config::for_module::<Collector>(&env_with_home("/home/user")).unwrap();
    assert_eq!(c.log_filename(), "/home/user/.fuelup/log/collector.log");
}

#[test]
fn config_fails_without_any_home() {
    let env = Environment { fuelup_home: None, fuelup_log: None, fuelup_tmp: None, home_dir: None };
    assert!(Config::resolve(&env, COLLECTOR_LOG).is_none());
}

#[test]
fn rate_limiter_samples_after_full_interval() {
    let now: i64 = 1_700_000_000;
    let mut si = SystemInfo::new(collector_config());
    assert!(!si.recently_logged(now));
    assert_eq!(si.collect(now, now - LOG_INTERVAL - 1), Some(now));
    // A second tick right after is throttled in memory.
    assert!(si.recently_logged(now + 1));
    assert_eq!(si.collect(now + 1, now), None);
}

#[test]
fn rate_limiter_skips_recent_marker() {
    let now: i64 = 1_700_000_000;
    let mut si = SystemInfo::new(collector_config());
    assert!(!si.should_log(now, now - 1));
    assert_eq!(si.collect(now, now - 1), None);
    // Exactly one interval is enough.
    assert_eq!(si.collect(now, now - LOG_INTERVAL), Some(now));
}

#[test]
fn rate_limiter_memory_tier_after_interval() {
    let now: i64 = 86_400 * 3;
    let mut si = SystemInfo::new(collector_config());
    assert_eq!(si.collect(now, 0), Some(now));
    assert!(si.recently_logged(now + LOG_INTERVAL - 1));
    assert!(!si.recently_logged(now + LOG_INTERVAL));
    assert_eq!(si.collect(now + LOG_INTERVAL, now), Some(now + LOG_INTERVAL));
}

#[test]
fn rate_limiter_extreme_times_do_not_overflow() {
    let mut si = SystemInfo::new(collector_config());
    assert_eq!(si.collect(i64::MAX, i64::MIN), Some(i64::MAX));
    assert!(si.recently_logged(i64::MAX));
    assert_eq!(si.collect(i64::MIN, i64::MAX), None);
}

#[test]
fn touch_filename_in_tmp_dir() {
    let mut si = SystemInfo::new(collector_config());
    assert_eq!(si.touch_filename(), "/home/user/.fuelup/tmp/system_info.touch");
    assert_eq!(si.touch_filename(), "/home/user/.fuelup/tmp/system_info.touch");
}

#[test]
fn sampler_is_kept_between_uses() {
    let mut si = SystemInfo::new(collector_config());
    let s = si.get_sysinfo();
    si.set_sysinfo(s);
    let _again = si.get_sysinfo();
}

#[test]
fn singleton_decisions() {
    let mut c = Collector::new(collector_config(), SystemInfo::new(collector_config()));
    assert_eq!(c.enforce_singleton(LockAttempt::Acquired), SingletonAction::Proceed);
    // The next iteration decides by its own fresh attempt alone.
    assert_eq!(c.enforce_singleton(LockAttempt::Acquired), SingletonAction::Proceed);
    assert_eq!(c.enforce_singleton(LockAttempt::WouldBlock), SingletonAction::ExitQuietly);
    assert_eq!(c.enforce_singleton(LockAttempt::Failed), SingletonAction::ExitFatal);
}

#[test]
fn racing_collectors_one_proceeds() {
    let attempts = [LockAttempt::WouldBlock, LockAttempt::Acquired, LockAttempt::WouldBlock];
    let mut proceeded = 0;
    for a in attempts {
        let mut c = Collector::new(collector_config(), SystemInfo::new(collector_config()));
        match c.enforce_singleton(a) {
            SingletonAction::Proceed => proceeded += 1,
            other => assert_eq!(other, SingletonAction::ExitQuietly),
        }
    }
    assert_eq!(proceeded, 1);
}

#[test]
fn collector_samples_as_lock_holder() {
    let now: i64 = 1_700_000_000;
    let mut c = Collector::new(collector_config(), SystemInfo::new(collector_config()));
    assert_eq!(c.enforce_singleton(LockAttempt::Acquired), SingletonAction::Proceed);
    assert_eq!(c.collect(now, now - LOG_INTERVAL - 1), Some(now));
    assert_eq!(c.collect(now + 60, now), None);
    assert!(c.system_info().recently_logged(now + 60));
}

#[test]
fn spool_lock_decisions() {
    assert_eq!(spool_action(LockAttempt::Acquired), SpoolAction::Consume);
    assert_eq!(spool_action(LockAttempt::WouldBlock), SpoolAction::Skip);
    assert_eq!(spool_action(LockAttempt::Failed), SpoolAction::ExitFatal);
}

#[test]
fn spool_entries_by_prefix() {
    assert!(is_spool_entry("metrics"));
    assert!(is_spool_entry("metrics-1234.json"));
    assert!(!is_spool_entry("metric"));
    assert!(!is_spool_entry("system_info.touch"));
    assert!(!is_spool_entry("my-metrics"));
}

#[test]
fn metrics_files_are_full_paths_in_order() {
    let mut c = Collector::new(collector_config(), SystemInfo::new(collector_config()));
    assert_eq!(c.enforce_singleton(LockAttempt::Acquired), SingletonAction::Proceed);
    let names = vec![
        "metrics-b".to_string(),
        "system_info.touch".to_string(),
        "metrics-a".to_string(),
    ];
    assert_eq!(
        c.metrics_files(&names),
        vec![
            "/home/user/.fuelup/tmp/metrics-b".to_string(),
            "/home/user/.fuelup/tmp/metrics-a".to_string(),
        ]
    );
    assert!(c.metrics_files(&Vec::new()).is_empty());
}

#[test]
fn child_exit_status_captured() {
    let o = Supervisor::classify_wait(WaitResult::Exited(7));
    assert_eq!(o, ExitOutcome::ExitedWithCode(7));
    assert_eq!(Supervisor::outcome_value(o), Some(7));
}

#[test]
fn child_signal_captured() {
    let o = Supervisor::classify_wait(WaitResult::Signaled(9));
    assert_eq!(o, ExitOutcome::KilledBySignal(9));
    assert_eq!(Supervisor::outcome_value(o), Some(9));
}

#[test]
fn child_unknown_wait_is_fatal() {
    let o = Supervisor::classify_wait(WaitResult::Other);
    assert_eq!(o, ExitOutcome::Unknown);
    assert_eq!(Supervisor::outcome_value(o), None);
}

#[test]
fn parent_poll_exits_when_gone() {
    assert_eq!(Supervisor::poll_action(true), PollAction::RecordAndSleep);
    assert_eq!(Supervisor::poll_action(false), PollAction::RecordFinalAndExit);
    let polls = [true, true, false, true];
    let mut sleeps = 0;
    for p in polls {
        if Supervisor::poll_action(p) == PollAction::RecordFinalAndExit {
            break;
        }
        sleeps += 1;
    }
    assert_eq!(sleeps, 2);
}

#[test]
fn supervisor_log_file() {
    let c = Config::for_module::<Supervisor>(&env_with_home("/root")).unwrap();
    let s = Supervisor::new(c);
    assert_eq!(s.log_path(), "/root/.fuelup/log/supervisor.log");
}

#[test]
fn opt_out_does_nothing() {
    assert!(supervise_child_process(true).is_empty());
    assert!(supervise_parent_process(true).is_empty());
}

#[test]
fn entrypoint_plans() {
    assert_eq!(supervise_child_process(false), vec![Stage::StartCollector, Stage::SuperviseChild]);
    assert_eq!(supervise_parent_process(false), vec![Stage::SplitForParent]);
    assert_eq!(parent_mode_plan(ForkSide::Parent), vec![Stage::SuperviseParent, Stage::ExitSilently]);
    assert_eq!(parent_mode_plan(ForkSide::Child), vec![Stage::StartCollector, Stage::ExitSilently]);
}

#[test]
fn max_fd_defaults_and_limits() {
    assert_eq!(max_fd(None), 1024);
    assert_eq!(max_fd(Some(4096)), 4096);
    assert_eq!(max_fd(Some(i64::MAX)), i32::MAX);
}

#[test]
fn last_component_of_paths() {
    assert_eq!(last_component("/bin/bash"), "bash");
    assert_eq!(last_component("/usr/local/bin/zsh/"), "zsh");
    assert_eq!(last_component("fish"), "fish");
    assert_eq!(last_component("/"), "");
}

#[test]
fn shells_by_last_component() {
    assert!(is_shell("/bin/bash"));
    assert!(is_shell("/usr/bin/sh"));
    assert!(is_shell("/opt/homebrew/bin/fish"));
    assert!(!is_shell("/bin/rbash"));
    assert!(!is_shell("/usr/bin/cargo"));
}

#[test]
fn launch_guards() {
    assert_eq!(launch(2, Some("/usr/bin/cargo")), Launch::Usage);
    assert_eq!(launch(1, None), Launch::ExitSilently);
    assert_eq!(launch(1, Some("/bin/zsh")), Launch::RefuseShell);
    assert_eq!(launch(1, Some("/usr/bin/forc")), Launch::Proceed);
}
