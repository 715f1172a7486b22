use shrieker::host::{
    bind_timeout_message, lagged_message, startup_exit, StartupExit, StartupReport, StartupStep, record_health_check, refresh_settings, token_refresh_policy, EventDisposition, HostMonitor,
    RefreshPolicy, RefreshSetting, StatusDisposition,
};

#[test]
fn maps_timed_refresh_policy() {
    assert_eq!(
        token_refresh_policy(RefreshSetting::ThreeHours),
        RefreshPolicy::After(3 * 60 * 60)
    );
}

#[test]
fn requires_three_consecutive_minecraft_probe_failures() {
    let mut failures = 0;
    assert!(!record_health_check(&mut failures, false));
    assert!(!record_health_check(&mut failures, false));
    assert!(record_health_check(&mut failures, false));
}

#[test]
fn successful_minecraft_probe_resets_failures() {
    let mut failures = 2;
    assert!(!record_health_check(&mut failures, true));
    assert_eq!(failures, 0);
    assert!(!record_health_check(&mut failures, false));
}

#[test]
fn failure_count_saturates() {
    let mut failures = u8::MAX;
    assert!(record_health_check(&mut failures, false));
    assert_eq!(failures, u8::MAX);
}

#[test]
fn every_setting_has_its_policy() {
    assert_eq!(token_refresh_policy(RefreshSetting::Always), RefreshPolicy::Always);
    assert_eq!(token_refresh_policy(RefreshSetting::Never), RefreshPolicy::Never);
    assert_eq!(token_refresh_policy(RefreshSetting::OneHour), RefreshPolicy::After(3600));
    assert_eq!(token_refresh_policy(RefreshSetting::SixHours), RefreshPolicy::After(21600));
    assert_eq!(token_refresh_policy(RefreshSetting::TwelveHours), RefreshPolicy::After(43200));
    assert_eq!(token_refresh_policy(RefreshSetting::TwentyFourHours), RefreshPolicy::After(86400));
}

#[test]
fn first_unreachable_target_report_waits_for_the_next_probe() {
    let mut monitor = HostMonitor::new(1);
    assert_eq!(monitor.on_event(false), EventDisposition::Forward);
    assert_eq!(monitor.on_event(true), EventDisposition::Hold);
    assert_eq!(monitor.on_event(true), EventDisposition::Drop);
    let failed = monitor.on_health_check(false);
    assert!(!failed.release_held && !failed.stop);
    let back = monitor.on_health_check(true);
    assert!(back.release_held && !back.stop);
    assert_eq!(monitor.on_event(true), EventDisposition::Hold);
}

#[test]
fn three_failed_probes_stop_the_host() {
    let mut monitor = HostMonitor::new(0);
    assert!(!monitor.on_health_check(false).stop);
    assert!(!monitor.on_health_check(false).stop);
    assert!(monitor.on_health_check(false).stop);
}

#[test]
fn only_newer_share_links_are_republished() {
    let mut monitor = HostMonitor::new(3);
    assert_eq!(monitor.on_status(3), StatusDisposition::Forward);
    assert_eq!(monitor.on_status(2), StatusDisposition::Forward);
    assert_eq!(monitor.on_status(4), StatusDisposition::Republish);
    assert_eq!(monitor.uri_generation, 4);
    assert_eq!(monitor.on_status(4), StatusDisposition::Forward);
}

#[test]
fn lagged_events_are_counted() {
    assert_eq!(lagged_message(7), "missed 7 host events");
}

#[test]
fn offers_every_refresh_setting_once() {
    let all = refresh_settings();
    assert_eq!(all[0], RefreshSetting::Always);
    assert_eq!(all[6], RefreshSetting::TwentyFourHours);
    for (i, a) in all.iter().enumerate() {
        for b in &all[i + 1..] {
            assert_ne!(a, b);
        }
    }
}

#[test]
fn a_failed_start_closes_only_a_bound_node() {
    let probe = startup_exit(StartupStep::ProbeServer);
    assert!(!probe.close_node);
    assert_eq!(probe.report, StartupReport::MinecraftUnavailable);
    assert_eq!(
        startup_exit(StartupStep::BindNode),
        StartupExit { close_node: false, report: StartupReport::Failed }
    );
    assert_eq!(
        startup_exit(StartupStep::ExposeUri),
        StartupExit { close_node: true, report: StartupReport::Failed }
    );
    assert_eq!(
        startup_exit(StartupStep::Announce),
        StartupExit { close_node: true, report: StartupReport::Silent }
    );
    assert_eq!(bind_timeout_message(), "node startup timed out; check relay settings");
}
