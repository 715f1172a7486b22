use std::path::PathBuf;
use shrieker::host::RefreshSetting;
use shrieker::input::LocalPort;
use shrieker::session::{
    opening_log, parse_theme_preference, theme_name, Effect, HostReport, JoinEvent, Mode,
    Notice, Phase, ProfileSettings, Session, ThemePreference,
};
use shrieker::settings::{CloseAction, GuiPreferences};

fn profile() -> ProfileSettings {
    ProfileSettings {
        host_port: 25565,
        token_refresh: RefreshSetting::Always,
        join_port: 30000,
        relay_custom: false,
        relay_url: None,
    }
}

fn session() -> Session {
    Session::new(profile(), GuiPreferences::default(), true)
}

#[test]
fn a_new_window_shows_the_host_page_with_stored_values() {
    let s = session();
    assert_eq!(s.mode, Mode::Host);
    assert!(s.is_idle());
    assert_eq!(s.form.host_port, "25565");
    assert_eq!(s.form.join_port, "30000");
    assert!(s.form.reconnect_unlimited);
    assert_eq!(s.form.reconnect_timeout_secs, 30);
    assert_eq!(s.window.theme, ThemePreference::System);
}

#[test]
fn pages_change_only_while_idle() {
    let mut s = session();
    s.host_scan_started(true);
    assert_eq!(s.set_mode(Mode::Join), vec![Effect::StopHostScan]);
    assert!(s.form.join_uri_select_all);
    assert!(s.background.host_scanner_stopping);
    assert_eq!(s.set_mode(Mode::Host), vec![]);
    assert_eq!(s.host_scan_stopped(), vec![Effect::StartHostScan]);
    s.activity.phase = Phase::Active;
    assert_eq!(s.set_mode(Mode::Settings), vec![]);
    assert_eq!(s.mode, Mode::Host);
}

#[test]
fn starting_a_host_reads_the_form() {
    let mut s = session();
    assert_eq!(s.plan_host_start(), Err(Notice::McServerUnavailable));
    s.form.host_manual_port = true;
    s.form.host_port = "0".to_owned();
    assert_eq!(
        s.plan_host_start(),
        Err(Notice::HostFailed("number would be zero for non-zero type".to_owned()))
    );
    s.form.host_port = "25566".to_owned();
    s.form.max_players = "eight".to_owned();
    assert!(matches!(s.plan_host_start(), Err(Notice::HostFailed(_))));
    s.form.max_players = "8".to_owned();
    let plan = s.plan_host_start().unwrap();
    assert_eq!((plan.mc_port, plan.max_players), (25566, Some(8)));
    assert_eq!(s.host_task_spawned(), vec![Effect::Log(Notice::StartingTunnel)]);
    assert_eq!(s.activity.phase, Phase::Starting);
}

#[test]
fn a_hosted_tunnel_lives_until_its_task_ends() {
    let mut s = session();
    s.background.detected_mc_port = Some(25565);
    s.host_task_spawned();
    assert!(!s.can_rotate());
    let started = s.apply_host_update(HostReport::Started("sculk://join/v1/x".to_owned()));
    assert_eq!(started[0], Effect::CopyText("sculk://join/v1/x".to_owned()));
    assert!(s.can_rotate());
    s.rotate_requested(true);
    assert!(!s.can_rotate());
    s.apply_host_update(HostReport::UriChanged("sculk://join/v1/y".to_owned()));
    assert_eq!(s.activity.share_uri.as_deref(), Some("sculk://join/v1/y"));
    assert_eq!(s.stop(), vec![Effect::SendHostStop]);
    assert_eq!(s.stop(), vec![]);
    let stopped = s.apply_host_update(HostReport::Stopped(Ok(())));
    assert_eq!(stopped, vec![Effect::Log(Notice::TunnelClosed), Effect::ClearHostStatus]);
    assert!(s.is_idle() && !s.activity.stop_pending && s.activity.share_uri.is_none());
}

#[test]
fn losing_minecraft_resumes_the_scan() {
    let mut s = session();
    s.background.detected_mc_port = Some(25565);
    s.host_task_spawned();
    let effects = s.apply_host_update(HostReport::MinecraftUnavailable);
    assert_eq!(
        effects,
        vec![Effect::Log(Notice::McServerUnavailable), Effect::ClearHostStatus, Effect::StartHostScan]
    );
}

#[test]
fn a_joined_tunnel_is_announced_while_active() {
    let mut s = session();
    s.set_mode(Mode::Join);
    assert_eq!(s.plan_join_port(), Ok(LocalPort::Auto));
    s.form.join_uri_input = "  sculk://join/v1/z ".to_owned();
    s.join_started(Phase::Starting, None);
    let active = s.apply_join_status(Phase::Active, Some(40000));
    assert_eq!(
        active,
        vec![Effect::PersistPreferences, Effect::StartLanBroadcast(40000), Effect::Log(Notice::JoinedAt)]
    );
    assert_eq!(s.persisted.join_uri, "sculk://join/v1/z");
    s.lan_broadcast_started(true);
    assert_eq!(
        s.apply_join_event(JoinEvent::Disconnected),
        vec![Effect::StopLanBroadcast, Effect::Log(Notice::TunnelEvent)]
    );
    assert_eq!(
        s.apply_join_event(JoinEvent::Reconnected),
        vec![Effect::StartLanBroadcast(40000), Effect::Log(Notice::TunnelEvent)]
    );
    s.lan_broadcast_started(true);
    assert_eq!(s.stop(), vec![Effect::StopLanBroadcast, Effect::ShutdownJoin]);
    let idle = s.apply_join_status(Phase::Idle, None);
    assert_eq!(idle, vec![Effect::Log(Notice::TunnelClosed)]);
    assert!(s.is_idle() && s.activity.active_mode.is_none());
}

#[test]
fn reconnect_attempts_name_the_timeout() {
    let mut s = session();
    s.form.reconnect_unlimited = false;
    s.form.reconnect_timeout_secs = 20;
    assert_eq!(
        s.apply_join_event(JoinEvent::Reconnecting(2)),
        vec![Effect::Log(Notice::ReconnectingLimited { attempt: 2, max_secs: 20 })]
    );
    assert_eq!(s.reconnect_timeout(), Some(20));
}

#[test]
fn zero_port_is_not_announced() {
    let mut s = session();
    s.set_mode(Mode::Join);
    s.join_started(Phase::Starting, None);
    let active = s.apply_join_status(Phase::Active, Some(0));
    assert_eq!(
        active[1],
        Effect::Log(Notice::LanBroadcastFailed("local port is zero".to_owned()))
    );
}

#[test]
fn settings_are_stored() {
    let mut s = session();
    s.form.relay_custom = true;
    s.form.relay_url = "https://relay.example".to_owned();
    s.form.reconnect_unlimited = false;
    s.form.reconnect_timeout_secs = 15;
    s.save_settings();
    assert_eq!(s.profile.relay_url.as_deref(), Some("https://relay.example"));
    assert_eq!(s.persisted.reconnect_timeout_secs, Some(15));
    s.set_theme(ThemePreference::Dark);
    s.window.close_action = CloseAction::HideToTray;
    s.save_preference_settings("en".to_owned());
    assert_eq!(s.persisted.theme, "dark");
    assert_eq!(s.persisted.locale, "en");
    assert_eq!(s.persisted.close_action, CloseAction::HideToTray);
}

#[test]
fn scan_results_fill_the_host_port() {
    let mut s = session();
    s.host_scan_started(true);
    let effects = s.host_scan_progress(Some(25570), true);
    assert_eq!(effects, vec![Effect::PersistProfile, Effect::CloseHostScanner]);
    assert_eq!(s.form.host_port, "25570");
    assert_eq!(s.profile.host_port, 25570);
    assert!(s.host_port_ready());
}

#[test]
fn closing_hides_only_with_a_ready_tray() {
    let mut s = session();
    s.window.close_action = CloseAction::HideToTray;
    assert!(!s.should_hide_window(true));
    s.window.tray_ready = true;
    assert!(s.should_hide_window(true));
    s.window.exit_requested = true;
    assert!(!s.should_hide_window(true));
}

#[test]
fn theme_names_round_trip() {
    for theme in [ThemePreference::System, ThemePreference::Light, ThemePreference::Dark] {
        assert_eq!(parse_theme_preference(theme_name(theme)), theme);
    }
    assert_eq!(parse_theme_preference("purple"), ThemePreference::System);
}

const SHARE_LINK: &str = "sculk://join/v1/AOpKbGPinFIKvvVQexMuxfmVR3auvr57kkIe6mkURtIsCAgICAgICAgICAgICAgICAkJCQkJCQkJCQkJCQkJCQkJCQkJCQkJCQkJCQkJCQkJ";

#[test]
fn a_join_needs_a_share_link() {
    let mut s = session();
    s.form.join_uri_input = "not a link".to_owned();
    assert!(matches!(s.prepare_join(), Err(Notice::InvalidShareUri(_))));
    s.form.join_uri_input = String::new();
    assert!(matches!(s.prepare_join(), Err(Notice::InvalidShareUri(_))));
}

#[test]
fn a_join_reads_the_trimmed_link_and_the_local_port() {
    let mut s = session();
    s.form.join_uri_input = format!("  {SHARE_LINK}\n");
    s.form.join_auto_port = true;
    let request = s.prepare_join();
    assert!(matches!(request, Ok(ref r) if r.local_port == LocalPort::Auto));
    s.form.join_auto_port = false;
    s.form.join_port = "30001".to_owned();
    let request = s.prepare_join();
    assert!(matches!(request, Ok(ref r) if r.local_port == LocalPort::Fixed(30001)));
    s.form.join_port = "port".to_owned();
    assert!(matches!(
        s.prepare_join(),
        Err(Notice::JoinFailed(ref m)) if m == "invalid digit found in string"
    ));
}

#[test]
fn a_host_needs_the_secret_key() {
    let mut s = session();
    s.background.detected_mc_port = Some(25565);
    assert!(matches!(
        s.prepare_host(false),
        Err(Notice::HostFailed(ref m)) if m == "persistent key unavailable"
    ));
    let request = s.prepare_host(true);
    match request {
        Ok(r) => {
            assert_eq!(r.mc_port, 25565);
            assert_eq!(r.max_players, None);
            assert!(r.relay_url.is_none());
            assert!(r.state_path.ends_with("shrieker/host.state"));
        }
        Err(n) => assert_eq!(n, Notice::HostFailed("system data directory unavailable".to_owned())),
    }
}

#[test]
fn a_custom_relay_that_is_not_a_url_stops_the_host() {
    let mut s = session();
    s.background.detected_mc_port = Some(25565);
    s.profile.relay_custom = true;
    s.profile.relay_url = Some("not a url".to_owned());
    assert!(matches!(s.prepare_host(true), Err(Notice::HostFailed(_))));
}

#[test]
fn buttons_follow_the_tunnel_state() {
    let mut s = session();
    assert!(s.controls_enabled());
    assert!(!s.can_start_host());
    s.background.detected_mc_port = Some(25565);
    assert!(s.can_start_host());
    s.host_task_spawned();
    assert!(!s.controls_enabled());
    s.apply_host_update(HostReport::Started("sculk://join/v1/x".to_owned()));
    assert!(s.can_request_new_link());
    s.rotate_requested(true);
    assert!(!s.can_request_new_link());
    s.stop();
    assert!(!s.can_start_host());
}

#[test]
fn a_custom_relay_is_used_by_the_host() {
    let mut s = session();
    s.background.detected_mc_port = Some(25565);
    s.profile.relay_custom = true;
    s.profile.relay_url = Some("https://relay.example.com".to_owned());
    let path = PathBuf::from("/data/shrieker/host.state");
    match s.host_request_with(true, Ok(path.clone())) {
        Ok(r) => {
            let relay = r.relay_url.expect("custom relay kept");
            assert!(relay.to_string().starts_with("https://relay.example.com"));
            assert_eq!(r.state_path, path);
        }
        Err(n) => panic!("unexpected {n:?}"),
    }
    s.profile.relay_custom = false;
    let r = s.host_request_with(true, Ok(path)).ok().unwrap();
    assert!(r.relay_url.is_none());
    assert!(matches!(
        s.host_request_with(true, Err("system data directory unavailable".to_owned())),
        Err(Notice::HostFailed(ref m)) if m == "system data directory unavailable"
    ));
}

#[test]
fn the_log_opens_with_load_errors_or_a_loaded_line() {
    assert_eq!(opening_log(vec![]), vec![Effect::Log(Notice::ProfileLoaded)]);
    assert_eq!(
        opening_log(vec!["[-] Profile load: bad".to_owned(), "[-] Key load: gone".to_owned()]),
        vec![
            Effect::Log(Notice::LoadFailed("[-] Profile load: bad".to_owned())),
            Effect::Log(Notice::LoadFailed("[-] Key load: gone".to_owned())),
        ]
    );
}

#[test]
fn a_join_that_becomes_active_is_stored_and_announced() {
    let mut s = session();
    s.set_mode(Mode::Join);
    s.form.join_uri_input = "  sculk://join/v1/x ".to_owned();
    s.join_started(Phase::Starting, None);
    let effects = s.apply_join_status(Phase::Active, Some(30001));
    assert_eq!(
        effects,
        vec![
            Effect::PersistPreferences,
            Effect::StartLanBroadcast(30001),
            Effect::Log(Notice::JoinedAt),
        ]
    );
    assert_eq!(s.persisted.join_uri, "sculk://join/v1/x");
    s.lan_broadcast_started(true);
    let effects = s.apply_join_status(Phase::Idle, None);
    assert_eq!(
        effects,
        vec![Effect::StopLanBroadcast, Effect::Log(Notice::TunnelClosed)]
    );
    assert!(s.is_idle());
}

#[test]
fn a_join_without_a_local_port_only_logs() {
    let mut s = session();
    s.set_mode(Mode::Join);
    s.join_started(Phase::Starting, None);
    assert_eq!(
        s.apply_join_status(Phase::Active, None),
        vec![Effect::PersistPreferences, Effect::Log(Notice::Joined)]
    );
}

#[test]
fn a_join_that_never_started_ends_quietly() {
    let mut s = session();
    s.set_mode(Mode::Join);
    s.join_started(Phase::Starting, None);
    assert_eq!(s.apply_join_status(Phase::Idle, None), vec![]);
    assert!(s.is_idle());
}

#[test]
fn a_join_carries_the_link_that_was_typed() {
    let mut s = session();
    s.form.join_uri_input = format!(" {SHARE_LINK} ");
    let expected: sculk::tunnel::JoinUri = SHARE_LINK.parse().unwrap();
    match s.prepare_join() {
        Ok(request) => assert!(request.uri == expected),
        Err(n) => panic!("unexpected {n:?}"),
    }
}
