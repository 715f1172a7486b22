//! The window's controller: which tunnel runs, what the user may do now,
//! and what must happen outside (scanning, announcing, storing, logging) in
//! answer to each request and each report.
//!
//! Every operation takes the reports of outside work as arguments and returns
//! the outside work to do next, in order, as [`Effect`]s.
use crate::host::RefreshSetting;
use crate::input::{
    parse_host_port, parse_local_port, parse_optional_u32, port_from_text, should_hide_on_close,
    LocalPort,
};
use crate::number::{
    decimal, decimal_string, int_error_message, parse_nonzero, parse_unsigned, parse_unsigned_chars,
    IntErrorKind,
};
use crate::settings::{CloseAction, GuiPreferences, PreferencesView, DEFAULT_RECONNECT_TIMEOUT_SECS};
use crate::paths::{app_dir, host_state_path, no_data_dir_message, path_join};
use crate::share::{join_uri_from_text, parse_join_uri, relay_url_resolution, resolve_relay_url, text_of};
use crate::text::{chars_of, string_of, trim, trim_chars};
use vstd::prelude::*;

verus! {

/// The page the window shows.
#[derive(Clone, Copy, Debug, PartialEq, Eq, Structural)]
pub enum Mode {
    Host,
    Join,
    Settings,
    Preferences,
}

/// The life cycle of the tunnel.
#[derive(Clone, Copy, Debug, PartialEq, Eq, Structural)]
pub enum Phase {
    Idle,
    Starting,
    Active,
    Stopping,
}

/// The colour scheme the window follows.
#[derive(Clone, Copy, Debug, PartialEq, Eq, Structural)]
pub enum ThemePreference {
    System,
    Light,
    Dark,
}

pub open spec fn theme_from_name(name: Seq<char>) -> ThemePreference {
    if name == "light"@ {
        ThemePreference::Light
    } else if name == "dark"@ {
        ThemePreference::Dark
    } else {
        ThemePreference::System
    }
}

pub open spec fn theme_name_text(theme: ThemePreference) -> Seq<char> {
    match theme {
        ThemePreference::System => "system"@,
        ThemePreference::Light => "light"@,
        ThemePreference::Dark => "dark"@,
    }
}

/// The theme a stored name stands for; unknown names follow the system.
pub fn parse_theme_preference(value: &str) -> (t: ThemePreference)
    ensures
        t == theme_from_name(value@),
{
    let v = chars_of(value);
    if crate::text::chars_eq_str(&v, "light") {
        ThemePreference::Light
    } else if crate::text::chars_eq_str(&v, "dark") {
        ThemePreference::Dark
    } else {
        ThemePreference::System
    }
}

/// The name under which a theme is stored.
pub fn theme_name(theme: ThemePreference) -> (r: &'static str)
    ensures
        r@ == theme_name_text(theme),
{
    match theme {
        ThemePreference::System => "system",
        ThemePreference::Light => "light",
        ThemePreference::Dark => "dark",
    }
}

/// Storing a theme's name and reading it back gives the theme.
pub proof fn lemma_theme_name_round_trip(theme: ThemePreference)
    ensures
        theme_from_name(theme_name_text(theme)) == theme,
{
    reveal_strlit("system");
    reveal_strlit("light");
    reveal_strlit("dark");
    assert("system"@.len() == 6 && "light"@.len() == 5 && "dark"@.len() == 4);
    assert("system"@ != "light"@ && "system"@ != "dark"@ && "dark"@ != "light"@);
}

/// The parts of the tunnel library's profile that the window edits.
#[derive(Clone, Debug, PartialEq, Eq)]
pub struct ProfileSettings {
    pub host_port: u16,
    pub token_refresh: RefreshSetting,
    pub join_port: u16,
    pub relay_custom: bool,
    pub relay_url: Option<String>,
}

/// A line for the log, in words the window chooses.
#[derive(Clone, Debug, PartialEq, Eq)]
pub enum Notice {
    HostFailed(String),
    McServerUnavailable,
    StartingTunnel,
    RefreshingShareUri,
    /// The window describes the event it was handed.
    TunnelEvent,
    ReconnectingLimited { attempt: u32, max_secs: u64 },
    /// Joined; the window adds the local address it was handed.
    JoinedAt,
    Joined,
    TunnelClosed,
    HostReady,
    ShareUriCopied,
    ShareUriRefreshed,
    ErrorMessage(String),
    StopFailed(String),
    LanBroadcastFailed(String),
    SettingsSaved,
    PreferencesSaved,
    InvalidShareUri(String),
    JoinFailed(String),
    /// The stored settings loaded without error.
    ProfileLoaded,
    /// A line that loading the stored settings wrote, as it wrote it.
    LoadFailed(String),
}

/// The first lines of the log: one for each error met while loading the
/// stored settings, in order, or a line that they loaded when there was none.
pub fn opening_log(load_errors: Vec<String>) -> (effects: Vec<Effect>)
    ensures
        load_errors@.len() == 0 ==> effects@ == seq![Effect::Log(Notice::ProfileLoaded)],
        load_errors@.len() > 0 ==> effects@ == load_errors@.map_values(
            |e: String| Effect::Log(Notice::LoadFailed(e)),
        ),
{
    let mut effects: Vec<Effect> = Vec::new();
    if load_errors.len() == 0 {
        effects.push(Effect::Log(Notice::ProfileLoaded));
        return effects;
    }
    let mut i: usize = 0;
    while i < load_errors.len()
        invariant
            i <= load_errors.len(),
            effects@ == load_errors@.take(i as int).map_values(
                |e: String| Effect::Log(Notice::LoadFailed(e)),
            ),
        decreases load_errors.len() - i,
    {
        effects.push(Effect::Log(Notice::LoadFailed(load_errors[i].clone())));
        i = i + 1;
        assert(effects@ =~= load_errors@.take(i as int).map_values(
            |e: String| Effect::Log(Notice::LoadFailed(e)),
        ));
    }
    assert(load_errors@.take(load_errors.len() as int) =~= load_errors@);
    effects
}

/// The port hosted comes from where the user chose: a port typed by hand is
/// hosted whatever the scan found, and the detected port only when none is
/// typed by hand.
pub proof fn lemma_host_port_source(s: Session)
    ensures
        s.form.host_manual_port ==> match port_from_text(s.form.host_port@) {
            Ok(p) => (s.host_plan() matches Ok(plan) ==> plan.mc_port == p) && (
            s.form.max_players@.len() == 0 ==> s.host_plan() == Ok::<HostPlan, HostPlanError>(
                HostPlan { mc_port: p, max_players: None },
            )),
            Err(k) => s.host_plan() == Err::<HostPlan, HostPlanError>(HostPlanError::Port(k)),
        },
        !s.form.host_manual_port ==> match s.background.detected_mc_port {
            Some(p) => s.host_plan() matches Ok(plan) ==> plan.mc_port == p,
            None => s.host_plan() == Err::<HostPlan, HostPlanError>(
                HostPlanError::McServerUnavailable,
            ),
        },
{
}

/// Work for the window to do, in the order given.
#[derive(Clone, Debug, PartialEq, Eq)]
pub enum Effect {
    Log(Notice),
    /// Start scanning the network for a local Minecraft server, then report
    /// with [`Session::host_scan_started`].
    StartHostScan,
    /// Stop the scanner in the background, then report with
    /// [`Session::host_scan_stopped`].
    StopHostScan,
    /// Stop the scanner now (it has finished).
    CloseHostScanner,
    /// Announce the tunnel on the local network, then report with
    /// [`Session::lan_broadcast_started`].
    StartLanBroadcast(u16),
    StopLanBroadcast,
    PersistProfile,
    PersistPreferences,
    CopyText(String),
    ClearHostStatus,
    /// Ask the host task to stop, then report a failure to send with
    /// [`Session::host_stop_unsent`].
    SendHostStop,
    /// Shut the join tunnel down in the background.
    ShutdownJoin,
}

/// What starting a host needs from the form.
#[derive(Clone, Copy, Debug, PartialEq, Eq, Structural)]
pub struct HostPlan {
    pub mc_port: u16,
    pub max_players: Option<u32>,
}

/// Why the form does not describe a host to start.
#[derive(Clone, Copy, Debug, PartialEq, Eq, Structural)]
pub enum HostPlanError {
    /// No port is typed by hand and no server was found.
    McServerUnavailable,
    /// The port typed by hand is not a port.
    Port(IntErrorKind),
    /// The player limit is neither empty nor a positive number.
    MaxPlayers(IntErrorKind),
}

/// The log line for a form that does not describe a host.
pub open spec fn plan_error_notice(n: Notice, e: HostPlanError) -> bool {
    match e {
        HostPlanError::McServerUnavailable => n == Notice::McServerUnavailable,
        HostPlanError::Port(k) => n matches Notice::HostFailed(m) && m@ == int_error_message(k),
        HostPlanError::MaxPlayers(k) => n matches Notice::HostFailed(m) && m@ == int_error_message(
            k,
        ),
    }
}

/// Everything a host task needs but the node's secret key.
pub struct HostRequest {
    pub mc_port: u16,
    pub max_players: Option<u32>,
    pub relay_url: Option<sculk::RelayUrl>,
    pub token_refresh: crate::host::RefreshPolicy,
    pub state_path: std::path::PathBuf,
}

/// Everything a join needs.
pub struct JoinRequest {
    pub uri: sculk::tunnel::JoinUri,
    pub local_port: LocalPort,
}

/// The host request from a plan and the outcomes of the checks that
/// follow it, in their order: the secret key, the relay address, the state
/// file's path.
pub fn host_request_from(
    plan: HostPlan,
    has_secret_key: bool,
    relay_url: Result<Option<sculk::RelayUrl>, String>,
    state_path: Result<std::path::PathBuf, String>,
    token_refresh: RefreshSetting,
) -> (r: Result<HostRequest, Notice>)
    ensures
        !has_secret_key ==> (r matches Err(Notice::HostFailed(m)) && m@
            == "persistent key unavailable"@),
        has_secret_key ==> match (relay_url, state_path) {
            (Err(e), _) => r == Err::<HostRequest, Notice>(Notice::HostFailed(e)),
            (Ok(_), Err(e)) => r == Err::<HostRequest, Notice>(Notice::HostFailed(e)),
            (Ok(u), Ok(p)) => r == Ok::<HostRequest, Notice>(
                HostRequest {
                    mc_port: plan.mc_port,
                    max_players: plan.max_players,
                    relay_url: u,
                    token_refresh: crate::host::refresh_policy_for(token_refresh),
                    state_path: p,
                },
            ),
        },
{
    if !has_secret_key {
        return Err(Notice::HostFailed(String::from_str("persistent key unavailable")));
    }
    let relay_url = match relay_url {
        Ok(u) => u,
        Err(e) => {
            return Err(Notice::HostFailed(e));
        },
    };
    let state_path = match state_path {
        Ok(p) => p,
        Err(e) => {
            return Err(Notice::HostFailed(e));
        },
    };
    Ok(
        HostRequest {
            mc_port: plan.mc_port,
            max_players: plan.max_players,
            relay_url,
            token_refresh: crate::host::token_refresh_policy(token_refresh),
            state_path,
        },
    )
}

/// The kinds of events of a joined tunnel that the controller tells apart.
#[derive(Clone, Copy, Debug, PartialEq, Eq, Structural)]
pub enum JoinEvent {
    Disconnected,
    Reconnecting(u32),
    Reconnected,
    Other,
}

/// The reports of the host task, without what the window only displays.
#[derive(Debug, PartialEq, Eq)]
pub enum HostReport {
    Started(String),
    Status,
    UriChanged(String),
    Event,
    Error(String),
    MinecraftUnavailable,
    Failed(String),
    Stopped(Result<(), String>),
}

/// What runs and what is pending.
pub struct Activity {
    pub phase: Phase,
    /// The role of the tunnel that runs, if any.
    pub active_mode: Option<Mode>,
    pub stop_pending: bool,
    pub rotate_pending: bool,
    /// A host task runs and takes commands.
    pub host_task: bool,
    pub share_uri: Option<String>,
    /// The local port of the joined tunnel in its last status.
    pub join_local_port: Option<u16>,
}

/// The helpers that run beside the tunnel.
pub struct Background {
    /// The network scan for a local Minecraft server runs.
    pub host_scanner: bool,
    /// The scan is being stopped in the background.
    pub host_scanner_stopping: bool,
    /// The tunnel is announced on the local network.
    pub lan_broadcasting: bool,
    pub detected_mc_port: Option<u16>,
}

/// What the form fields hold.
pub struct Form {
    pub host_manual_port: bool,
    pub host_port: String,
    pub max_players: String,
    pub token_refresh: RefreshSetting,
    pub join_uri_input: String,
    pub join_uri_select_all: bool,
    pub join_port: String,
    pub join_auto_port: bool,
    pub relay_custom: bool,
    pub relay_url: String,
    pub reconnect_unlimited: bool,
    pub reconnect_timeout_secs: u64,
}

/// How the window looks and closes.
pub struct Window {
    pub remember_window_state: bool,
    pub close_action: CloseAction,
    pub theme: ThemePreference,
    pub tray_ready: bool,
    pub close_to_tray: bool,
    pub exit_requested: bool,
}

/// The controller's state: the page shown, what runs, what the form holds
/// and what is stored.
pub struct Session {
    pub mode: Mode,
    pub activity: Activity,
    pub background: Background,
    pub form: Form,
    pub window: Window,
    pub profile: ProfileSettings,
    pub persisted: GuiPreferences,
}

/// The work that announcing on `port` starts with: the announcement, or
/// the log line that port zero cannot be announced.
pub open spec fn is_broadcast_start(e: Effect, port: u16) -> bool {
    if port == 0 {
        e matches Effect::Log(Notice::LanBroadcastFailed(m)) && m@ == "local port is zero"@
    } else {
        e == Effect::StartLanBroadcast(port)
    }
}

impl Session {
    /// What holds of the controller between any two operations: a pending
    /// stop belongs to a tunnel that runs, the scanner is never both running
    /// and being stopped, and a host task exists only for a hosted tunnel.
    pub open spec fn wf(&self) -> bool {
        &&& self.activity.stop_pending ==> self.activity.phase != Phase::Idle
        &&& !(self.background.host_scanner && self.background.host_scanner_stopping)
        &&& self.activity.host_task ==> self.activity.active_mode == Some(Mode::Host)
    }

    pub open spec fn idle(&self) -> bool {
        self.activity.phase == Phase::Idle
    }

    /// Only the activity changed.
    pub open spec fn keeps_all_but_activity(&self, other: &Session) -> bool {
        &&& self.mode == other.mode
        &&& self.background == other.background
        &&& self.form == other.form
        &&& self.window == other.window
        &&& self.profile == other.profile
        &&& self.persisted == other.persisted
    }

    /// Only the activity and the helpers changed.
    pub open spec fn keeps_settings(&self, other: &Session) -> bool {
        &&& self.mode == other.mode
        &&& self.form == other.form
        &&& self.window == other.window
        &&& self.profile == other.profile
        &&& self.persisted == other.persisted
    }

    /// The controller of a freshly opened window, from the stored profile
    /// and preferences.  No scan runs yet.
    pub fn new(profile: ProfileSettings, preferences: GuiPreferences, close_to_tray: bool) -> (s:
        Session)
        ensures
            s.wf(),
            s.mode == Mode::Host,
            s.activity == (Activity {
                phase: Phase::Idle,
                active_mode: None,
                stop_pending: false,
                rotate_pending: false,
                host_task: false,
                share_uri: None,
                join_local_port: None,
            }),
            s.background == (Background {
                host_scanner: false,
                host_scanner_stopping: false,
                lan_broadcasting: false,
                detected_mc_port: None,
            }),
            s.form.host_port@ == decimal(profile.host_port as nat),
            s.form.join_port@ == decimal(profile.join_port as nat),
            s.form.token_refresh == profile.token_refresh,
            s.form.join_uri_input@ == preferences@.join_uri,
            s.form.reconnect_unlimited == (preferences.reconnect_timeout_secs is None),
            s.form.reconnect_timeout_secs == match preferences.reconnect_timeout_secs {
                Some(v) => v,
                None => DEFAULT_RECONNECT_TIMEOUT_SECS,
            },
            s.form.relay_custom == profile.relay_custom,
            s.form.relay_url@ == match profile.relay_url {
                Some(u) => u@,
                None => Seq::<char>::empty(),
            },
            s.form.join_auto_port && !s.form.host_manual_port && !s.form.join_uri_select_all,
            s.form.max_players@.len() == 0,
            s.window == (Window {
                remember_window_state: preferences.remember_window_state,
                close_action: preferences.close_action,
                theme: theme_from_name(preferences@.theme),
                tray_ready: false,
                close_to_tray,
                exit_requested: false,
            }),
            s.profile == profile,
            s.persisted == preferences,
    {
        let host_port = decimal_string(profile.host_port as u64);
        let join_port = decimal_string(profile.join_port as u64);
        let relay_url = match &profile.relay_url {
            Some(u) => string_of(&chars_of(u.as_str())),
            None => String::new(),
        };
        let theme = parse_theme_preference(preferences.theme.as_str());
        let join_uri_input = string_of(&chars_of(preferences.join_uri.as_str()));
        let reconnect_timeout_secs = match preferences.reconnect_timeout_secs {
            Some(v) => v,
            None => DEFAULT_RECONNECT_TIMEOUT_SECS,
        };
        let form = Form {
            host_manual_port: false,
            host_port,
            max_players: String::new(),
            token_refresh: profile.token_refresh,
            join_uri_input,
            join_uri_select_all: false,
            join_port,
            join_auto_port: true,
            relay_custom: profile.relay_custom,
            relay_url,
            reconnect_unlimited: preferences.reconnect_timeout_secs.is_none(),
            reconnect_timeout_secs,
        };
        let window = Window {
            remember_window_state: preferences.remember_window_state,
            close_action: preferences.close_action,
            theme,
            tray_ready: false,
            close_to_tray,
            exit_requested: false,
        };
        Session {
            mode: Mode::Host,
            activity: Activity {
                phase: Phase::Idle,
                active_mode: None,
                stop_pending: false,
                rotate_pending: false,
                host_task: false,
                share_uri: None,
                join_local_port: None,
            },
            background: Background {
                host_scanner: false,
                host_scanner_stopping: false,
                lan_broadcasting: false,
                detected_mc_port: None,
            },
            form,
            window,
            profile,
            persisted: preferences,
        }
    }

    pub fn is_idle(&self) -> (r: bool)
        ensures
            r == self.idle(),
    {
        self.activity.phase == Phase::Idle
    }

    /// Whether a scan should start now: none runs or stops, no server was
    /// found yet, and the idle window shows the host page.
    pub open spec fn scan_wanted(&self) -> bool {
        !self.background.host_scanner && !self.background.host_scanner_stopping
            && self.background.detected_mc_port is None && self.mode == Mode::Host && self.idle()
    }

    /// Starts the scan if it is wanted.
    fn start_host_scan(&self, effects: &mut Vec<Effect>)
        ensures
            self.scan_wanted() ==> final(effects)@ == old(effects)@.push(Effect::StartHostScan),
            !self.scan_wanted() ==> final(effects)@ == old(effects)@,
    {
        if !self.background.host_scanner && !self.background.host_scanner_stopping
            && self.background.detected_mc_port.is_none() && self.mode == Mode::Host
            && self.activity.phase == Phase::Idle {
            effects.push(Effect::StartHostScan);
        }
    }

    /// Stops the scan in the background if one runs.
    fn stop_host_scan(background: &mut Background, effects: &mut Vec<Effect>)
        ensures
            old(background).host_scanner ==> *final(background) == (Background {
                host_scanner: false,
                host_scanner_stopping: true,
                ..*old(background)
            }) && final(effects)@ == old(effects)@.push(Effect::StopHostScan),
            !old(background).host_scanner ==> *final(background) == *old(background)
                && final(effects)@ == old(effects)@,
    {
        if background.host_scanner {
            background.host_scanner = false;
            background.host_scanner_stopping = true;
            effects.push(Effect::StopHostScan);
        }
    }

    /// Stops announcing, if the tunnel is announced.
    fn stop_lan_broadcast(background: &mut Background, effects: &mut Vec<Effect>)
        ensures
            *final(background) == (Background { lan_broadcasting: false, ..*old(background) }),
            old(background).lan_broadcasting ==> final(effects)@ == old(effects)@.push(
                Effect::StopLanBroadcast,
            ),
            !old(background).lan_broadcasting ==> final(effects)@ == old(effects)@,
    {
        if background.lan_broadcasting {
            background.lan_broadcasting = false;
            effects.push(Effect::StopLanBroadcast);
        }
    }

    /// Announces the tunnel listening on `port`, replacing any announcement.
    fn start_lan_broadcast(background: &mut Background, port: u16, effects: &mut Vec<Effect>)
        ensures
            *final(background) == (Background { lan_broadcasting: false, ..*old(background) }),
            final(effects)@.len() > 0,
            final(effects)@.drop_last() == if old(background).lan_broadcasting {
                old(effects)@.push(Effect::StopLanBroadcast)
            } else {
                old(effects)@
            },
            is_broadcast_start(final(effects)@.last(), port),
    {
        Self::stop_lan_broadcast(background, effects);
        let ghost before = effects@;
        if port == 0 {
            effects.push(
                Effect::Log(Notice::LanBroadcastFailed(String::from_str("local port is zero"))),
            );
        } else {
            effects.push(Effect::StartLanBroadcast(port));
        }
        assert(effects@.drop_last() =~= before);
    }

    /// The outcome of starting a scan.
    pub fn host_scan_started(&mut self, started: bool)
        requires
            old(self).wf(),
            !old(self).background.host_scanner_stopping,
        ensures
            final(self).wf(),
            final(self).background == (Background {
                host_scanner: old(self).background.host_scanner || started,
                ..old(self).background
            }),
            final(self).activity == old(self).activity,
            final(self).keeps_settings(old(self)),
    {
        if started {
            self.background.host_scanner = true;
        }
    }

    /// Shows another page.  Nothing changes while a tunnel runs or when the
    /// page is already shown.  Showing the host page starts a scan, showing
    /// any other stops it.
    pub fn set_mode(&mut self, mode: Mode) -> (effects: Vec<Effect>)
        requires
            old(self).wf(),
        ensures
            final(self).wf(),
            (mode == old(self).mode || !old(self).idle()) ==> *final(self) == *old(self)
                && effects@.len() == 0,
            (mode != old(self).mode && old(self).idle()) ==> {
                &&& final(self).mode == mode
                &&& final(self).activity == old(self).activity
                &&& final(self).form == (Form {
                    join_uri_select_all: old(self).form.join_uri_select_all || mode == Mode::Join,
                    ..old(self).form
                })
                &&& final(self).window == old(self).window
                &&& final(self).profile == old(self).profile
                &&& final(self).persisted == old(self).persisted
                &&& mode == Mode::Host ==> final(self).background == old(self).background && (
                if !old(self).background.host_scanner && !old(self).background.host_scanner_stopping
                    && old(self).background.detected_mc_port is None {
                    effects@ == seq![Effect::StartHostScan]
                } else {
                    effects@.len() == 0
                })
                &&& mode != Mode::Host ==> if old(self).background.host_scanner {
                    final(self).background == (Background {
                        host_scanner: false,
                        host_scanner_stopping: true,
                        ..old(self).background
                    }) && effects@ == seq![Effect::StopHostScan]
                } else {
                    final(self).background == old(self).background && effects@.len() == 0
                }
            },
    {
        let mut effects: Vec<Effect> = Vec::new();
        if self.mode == mode || self.activity.phase != Phase::Idle {
            return effects;
        }
        self.mode = mode;
        if mode == Mode::Join {
            self.form.join_uri_select_all = true;
        }
        if mode == Mode::Host {
            self.start_host_scan(&mut effects);
        } else {
            Self::stop_host_scan(&mut self.background, &mut effects);
        }
        effects
    }

    /// Whether the host page can start: a valid port typed by hand, or a
    /// detected server.
    pub fn host_port_ready(&self) -> (r: bool)
        ensures
            r == if self.form.host_manual_port {
                port_from_text(self.form.host_port@) is Ok
            } else {
                self.background.detected_mc_port is Some
            },
    {
        if self.form.host_manual_port {
            parse_host_port(self.form.host_port.as_str()).is_ok()
        } else {
            self.background.detected_mc_port.is_some()
        }
    }

    /// Stores the host port typed by hand, if it is a valid port.
    pub fn save_host_port(&mut self) -> (effects: Vec<Effect>)
        requires
            old(self).wf(),
        ensures
            final(self).wf(),
            final(self).activity == old(self).activity,
            final(self).background == old(self).background,
            final(self).form == old(self).form,
            final(self).persisted == old(self).persisted,
            match port_from_text(old(self).form.host_port@) {
                Ok(p) => final(self).profile == (ProfileSettings {
                    host_port: p,
                    ..old(self).profile
                }) && effects@ == seq![Effect::PersistProfile],
                Err(_) => final(self).profile == old(self).profile && effects@.len() == 0,
            },
    {
        let mut effects: Vec<Effect> = Vec::new();
        if let Ok(port) = parse_host_port(self.form.host_port.as_str()) {
            self.profile.host_port = port;
            effects.push(Effect::PersistProfile);
        }
        effects
    }

    /// Stores the join port typed by hand, if it is a port number.
    pub fn save_join_port(&mut self) -> (effects: Vec<Effect>)
        requires
            old(self).wf(),
        ensures
            final(self).wf(),
            final(self).activity == old(self).activity,
            final(self).background == old(self).background,
            final(self).form == old(self).form,
            final(self).persisted == old(self).persisted,
            match parse_unsigned(old(self).form.join_port@, u16::MAX as nat) {
                Ok(p) => final(self).profile == (ProfileSettings {
                    join_port: p as u16,
                    ..old(self).profile
                }) && effects@ == seq![Effect::PersistProfile],
                Err(_) => final(self).profile == old(self).profile && effects@.len() == 0,
            },
    {
        let mut effects: Vec<Effect> = Vec::new();
        let text = chars_of(self.form.join_port.as_str());
        if let Ok(port) = parse_unsigned_chars(&text, 65535) {
            self.profile.join_port = port as u16;
            effects.push(Effect::PersistProfile);
        }
        effects
    }

    /// Stores the share link lifetime chosen in the form.
    pub fn save_host_token_refresh(&mut self) -> (effects: Vec<Effect>)
        requires
            old(self).wf(),
        ensures
            final(self).wf(),
            final(self).activity == old(self).activity,
            final(self).background == old(self).background,
            final(self).form == old(self).form,
            final(self).persisted == old(self).persisted,
            final(self).profile == (ProfileSettings {
                token_refresh: old(self).form.token_refresh,
                ..old(self).profile
            }),
            effects@ == seq![Effect::PersistProfile],
    {
        self.profile.token_refresh = self.form.token_refresh;
        let mut effects: Vec<Effect> = Vec::new();
        effects.push(Effect::PersistProfile);
        effects
    }

    /// The Minecraft port and player limit for a new host, read from the
    /// form: the port typed by hand or else the detected one, and an
    /// optional positive limit (empty for none).
    pub open spec fn host_plan(&self) -> Result<HostPlan, HostPlanError> {
        let port = if self.form.host_manual_port {
            match port_from_text(self.form.host_port@) {
                Ok(p) => Ok(p),
                Err(k) => Err(HostPlanError::Port(k)),
            }
        } else {
            match self.background.detected_mc_port {
                Some(p) => Ok(p),
                None => Err(HostPlanError::McServerUnavailable),
            }
        };
        match port {
            Err(e) => Err(e),
            Ok(p) => if self.form.max_players@.len() == 0 {
                Ok(HostPlan { mc_port: p, max_players: None })
            } else {
                match parse_nonzero(self.form.max_players@, u32::MAX as nat) {
                    Ok(v) => Ok(HostPlan { mc_port: p, max_players: Some(v as u32) }),
                    Err(k) => Err(HostPlanError::MaxPlayers(k)),
                }
            },
        }
    }

    /// The Minecraft port and player limit for a new host, or the log line
    /// that says why the form does not describe one.
    pub fn plan_host_start(&self) -> (r: Result<HostPlan, Notice>)
        ensures
            match (r, self.host_plan()) {
                (Ok(p), Ok(q)) => p == q,
                (Err(n), Err(e)) => plan_error_notice(n, e),
                _ => false,
            },
    {
        let mc_port = if self.form.host_manual_port {
            match parse_host_port(self.form.host_port.as_str()) {
                Ok(port) => port,
                Err(e) => {
                    return Err(Notice::HostFailed(e.message()));
                },
            }
        } else {
            match self.background.detected_mc_port {
                Some(port) => port,
                None => {
                    return Err(Notice::McServerUnavailable);
                },
            }
        };
        match parse_optional_u32(self.form.max_players.as_str()) {
            Ok(max_players) => Ok(HostPlan { mc_port, max_players }),
            Err(e) => Err(Notice::HostFailed(e.message())),
        }
    }

    /// Everything a new host needs but the secret key, which the window
    /// holds: the plan, then a key, the stored relay address and the state
    /// file's path, each checked in turn.
    pub fn prepare_host(&self, has_secret_key: bool) -> (r: Result<HostRequest, Notice>)
        ensures
            self.host_plan() matches Err(e) ==> (r matches Err(n) && plan_error_notice(n, e)),
            self.host_plan() matches Ok(plan) ==> {
                let relay = relay_url_resolution(
                    self.profile.relay_custom,
                    text_of(self.profile.relay_url),
                );
                &&& !has_secret_key ==> (r matches Err(Notice::HostFailed(m)) && m@
                    == "persistent key unavailable"@)
                &&& has_secret_key && relay is Err ==> (r matches Err(Notice::HostFailed(m))
                    && m@ == relay->Err_0)
                &&& has_secret_key && relay is Ok ==> match r {
                    Ok(req) => req.mc_port == plan.mc_port && req.max_players == plan.max_players
                        && req.token_refresh == crate::host::refresh_policy_for(
                        self.form.token_refresh,
                    ) && req.relay_url == relay->Ok_0 && exists|system: std::path::PathBuf|
                        req.state_path == path_join(app_dir(system), "host.state"@),
                    Err(Notice::HostFailed(m)) => m@ == no_data_dir_message(),
                    _ => false,
                }
            },
            (self.profile.relay_custom && self.profile.relay_url is Some && r is Ok)
                ==> r->Ok_0.relay_url is Some,
            (!self.profile.relay_custom || self.profile.relay_url is None) && r is Ok
                ==> r->Ok_0.relay_url is None,
    {
        let state_path = host_state_path();
        let r = self.host_request_with(has_secret_key, state_path);
        proof {
            if self.host_plan() is Ok && has_secret_key && relay_url_resolution(
                self.profile.relay_custom,
                text_of(self.profile.relay_url),
            ) is Ok && r is Ok {
                let system = choose|system: std::path::PathBuf|
                    state_path == Ok::<std::path::PathBuf, String>(
                        path_join(app_dir(system), "host.state"@),
                    );
                assert(r->Ok_0.state_path == path_join(app_dir(system), "host.state"@));
            }
        }
        r
    }

    /// The host request, given how looking up the state file's path came
    /// out: the plan, then a key, the stored relay address (read by the
    /// tunnel library) and the state file's path, each checked in turn.
    pub fn host_request_with(
        &self,
        has_secret_key: bool,
        state_path: Result<std::path::PathBuf, String>,
    ) -> (r: Result<HostRequest, Notice>)
        ensures
            self.host_plan() matches Err(e) ==> (r matches Err(n) && plan_error_notice(n, e)),
            self.host_plan() matches Ok(plan) ==> {
                &&& !has_secret_key ==> (r matches Err(Notice::HostFailed(m)) && m@
                    == "persistent key unavailable"@)
                &&& has_secret_key ==> match (
                    relay_url_resolution(self.profile.relay_custom, text_of(self.profile.relay_url)),
                    state_path,
                ) {
                    (Err(m), _) => r matches Err(Notice::HostFailed(e)) && e@ == m,
                    (Ok(_), Err(e)) => r == Err::<HostRequest, Notice>(Notice::HostFailed(e)),
                    (Ok(u), Ok(p)) => r == Ok::<HostRequest, Notice>(
                        HostRequest {
                            mc_port: plan.mc_port,
                            max_players: plan.max_players,
                            relay_url: u,
                            token_refresh: crate::host::refresh_policy_for(self.form.token_refresh),
                            state_path: p,
                        },
                    ),
                }
            },
            (self.profile.relay_custom && self.profile.relay_url is Some && r is Ok)
                ==> r->Ok_0.relay_url is Some,
            (!self.profile.relay_custom || self.profile.relay_url is None) && r is Ok
                ==> r->Ok_0.relay_url is None,
    {
        let plan = match self.plan_host_start() {
            Ok(plan) => plan,
            Err(n) => {
                return Err(n);
            },
        };
        let relay_url = resolve_relay_url(self.profile.relay_custom, self.profile.relay_url.clone());
        host_request_from(plan, has_secret_key, relay_url, state_path, self.form.token_refresh)
    }

    /// What a join needs, given how the share link read: the link, or the
    /// log line that it is not one; then the local port, or the log line
    /// that it is not a port.
    pub fn join_request_from(&self, parsed: Result<sculk::tunnel::JoinUri, String>) -> (r: Result<
        JoinRequest,
        Notice,
    >)
        ensures
            match parsed {
                Err(m) => r == Err::<JoinRequest, Notice>(Notice::InvalidShareUri(m)),
                Ok(uri) => if self.form.join_auto_port {
                    r == Ok::<JoinRequest, Notice>(
                        JoinRequest { uri, local_port: LocalPort::Auto },
                    )
                } else {
                    match port_from_text(self.form.join_port@) {
                        Ok(p) => r == Ok::<JoinRequest, Notice>(
                            JoinRequest { uri, local_port: LocalPort::Fixed(p) },
                        ),
                        Err(k) => r matches Err(Notice::JoinFailed(m)) && m@ == int_error_message(
                            k,
                        ),
                    }
                },
            },
    {
        let uri = match parsed {
            Ok(uri) => uri,
            Err(m) => {
                return Err(Notice::InvalidShareUri(m));
            },
        };
        match self.plan_join_port() {
            Ok(local_port) => Ok(JoinRequest { uri, local_port }),
            Err(e) => Err(Notice::JoinFailed(e.message())),
        }
    }

    /// What a join needs: the share link typed in the form (without white
    /// space at its ends) and the local port.
    pub fn prepare_join(&self) -> (r: Result<JoinRequest, Notice>)
        ensures
            match join_uri_from_text(trim(self.form.join_uri_input@)) {
                Err(m) => r matches Err(Notice::InvalidShareUri(e)) && e@ == m,
                Ok(uri) => if self.form.join_auto_port {
                    r == Ok::<JoinRequest, Notice>(JoinRequest { uri, local_port: LocalPort::Auto })
                } else {
                    match port_from_text(self.form.join_port@) {
                        Ok(p) => r == Ok::<JoinRequest, Notice>(
                            JoinRequest { uri, local_port: LocalPort::Fixed(p) },
                        ),
                        Err(k) => r matches Err(Notice::JoinFailed(m)) && m@ == int_error_message(
                            k,
                        ),
                    }
                },
            },
    {
        let trimmed = string_of(&trim_chars(&chars_of(self.form.join_uri_input.as_str())));
        let parsed = parse_join_uri(trimmed.as_str());
        self.join_request_from(parsed)
    }

    /// A host task was started: the scan stops and the tunnel starts.
    pub fn host_task_spawned(&mut self) -> (effects: Vec<Effect>)
        requires
            old(self).wf(),
        ensures
            final(self).wf(),
            final(self).activity == (Activity {
                host_task: true,
                phase: Phase::Starting,
                active_mode: Some(Mode::Host),
                ..old(self).activity
            }),
            old(self).background.host_scanner ==> final(self).background == (Background {
                host_scanner: false,
                host_scanner_stopping: true,
                ..old(self).background
            }) && effects@ == seq![Effect::StopHostScan, Effect::Log(Notice::StartingTunnel)],
            !old(self).background.host_scanner ==> final(self).background == old(self).background
                && effects@ == seq![Effect::Log(Notice::StartingTunnel)],
            final(self).keeps_settings(old(self)),
    {
        let mut effects: Vec<Effect> = Vec::new();
        self.activity.host_task = true;
        Self::stop_host_scan(&mut self.background, &mut effects);
        self.activity.phase = Phase::Starting;
        self.activity.active_mode = Some(Mode::Host);
        effects.push(Effect::Log(Notice::StartingTunnel));
        effects
    }

    /// Whether a new share link may be requested: the hosted tunnel is
    /// active, its task takes commands, and no request is pending.
    pub fn can_rotate(&self) -> (r: bool)
        ensures
            r == (!self.activity.rotate_pending && self.activity.phase == Phase::Active
                && self.activity.host_task),
    {
        !self.activity.rotate_pending && self.activity.phase == Phase::Active
            && self.activity.host_task
    }

    /// A new share link was requested from the host task.
    pub fn rotate_requested(&mut self, sent: bool) -> (effects: Vec<Effect>)
        requires
            old(self).wf(),
        ensures
            final(self).wf(),
            final(self).keeps_all_but_activity(old(self)),
            sent ==> final(self).activity == (Activity {
                rotate_pending: true,
                ..old(self).activity
            }) && effects@ == seq![Effect::Log(Notice::RefreshingShareUri)],
            !sent ==> final(self).activity == old(self).activity && effects@.len() == 0,
    {
        let mut effects: Vec<Effect> = Vec::new();
        if sent {
            self.activity.rotate_pending = true;
            effects.push(Effect::Log(Notice::RefreshingShareUri));
        }
        effects
    }

    /// The local port for a new join, read from the form.
    pub fn plan_join_port(&self) -> (r: Result<LocalPort, IntErrorKind>)
        ensures
            self.form.join_auto_port ==> r == Ok::<LocalPort, IntErrorKind>(LocalPort::Auto),
            !self.form.join_auto_port ==> r == match port_from_text(self.form.join_port@) {
                Ok(p) => Ok(LocalPort::Fixed(p)),
                Err(e) => Err(e),
            },
    {
        parse_local_port(self.form.join_auto_port, self.form.join_port.as_str())
    }

    /// The join tunnel was started and reports the given phase.
    pub fn join_started(&mut self, phase: Phase, local_port: Option<u16>)
        requires
            old(self).wf(),
            !old(self).activity.host_task,
            !old(self).activity.stop_pending,
        ensures
            final(self).wf(),
            final(self).keeps_all_but_activity(old(self)),
            final(self).activity == (Activity {
                active_mode: Some(Mode::Join),
                phase,
                join_local_port: local_port,
                ..old(self).activity
            }),
    {
        self.activity.active_mode = Some(Mode::Join);
        self.activity.phase = phase;
        self.activity.join_local_port = local_port;
    }

    /// Stops the tunnel.  Nothing happens while a stop is pending or no
    /// tunnel runs; a hosted tunnel is asked to stop through its task, a
    /// joined one stops announcing and shuts down.
    pub fn stop(&mut self) -> (effects: Vec<Effect>)
        requires
            old(self).wf(),
        ensures
            final(self).wf(),
            (old(self).activity.stop_pending || old(self).idle()) ==> *final(self) == *old(self)
                && effects@.len() == 0,
            !(old(self).activity.stop_pending || old(self).idle()) ==> {
                &&& final(self).activity == (Activity {
                    stop_pending: true,
                    ..old(self).activity
                })
                &&& final(self).keeps_settings(old(self))
                &&& old(self).activity.active_mode == Some(Mode::Host) ==> final(self).background
                    == old(self).background && effects@ == seq![Effect::SendHostStop]
                &&& old(self).activity.active_mode != Some(Mode::Host) ==> final(self).background
                    == (Background { lan_broadcasting: false, ..old(self).background })
                    && effects@ == if old(self).background.lan_broadcasting {
                    seq![Effect::StopLanBroadcast, Effect::ShutdownJoin]
                } else {
                    seq![Effect::ShutdownJoin]
                }
            },
    {
        let mut effects: Vec<Effect> = Vec::new();
        if self.activity.stop_pending || self.activity.phase == Phase::Idle {
            return effects;
        }
        self.activity.stop_pending = true;
        if self.activity.active_mode == Some(Mode::Host) {
            effects.push(Effect::SendHostStop);
            return effects;
        }
        Self::stop_lan_broadcast(&mut self.background, &mut effects);
        effects.push(Effect::ShutdownJoin);
        effects
    }

    /// The host task could not be asked to stop.
    pub fn host_stop_unsent(&mut self) -> (effects: Vec<Effect>)
        requires
            old(self).wf(),
        ensures
            final(self).wf(),
            final(self).keeps_all_but_activity(old(self)),
            final(self).activity == (Activity { stop_pending: false, ..old(self).activity }),
            effects@.len() == 1,
            (effects@[0] matches Effect::Log(Notice::StopFailed(m)) && m@
                == "host task unavailable"@),
    {
        self.activity.stop_pending = false;
        let mut effects: Vec<Effect> = Vec::new();
        effects.push(Effect::Log(Notice::StopFailed(String::from_str("host task unavailable"))));
        effects
    }

    /// The outcome of starting an announcement.
    pub fn lan_broadcast_started(&mut self, started: bool)
        requires
            old(self).wf(),
        ensures
            final(self).wf(),
            final(self).activity == old(self).activity,
            final(self).keeps_settings(old(self)),
            final(self).background == (Background {
                lan_broadcasting: started,
                ..old(self).background
            }),
    {
        self.background.lan_broadcasting = started;
    }

    /// The announcement ended on its own.
    pub fn lan_broadcast_finished(&mut self) -> (effects: Vec<Effect>)
        requires
            old(self).wf(),
        ensures
            final(self).wf(),
            final(self).activity == old(self).activity,
            final(self).keeps_settings(old(self)),
            final(self).background == (Background {
                lan_broadcasting: false,
                ..old(self).background
            }),
            old(self).background.lan_broadcasting ==> effects@ == seq![Effect::StopLanBroadcast],
            !old(self).background.lan_broadcasting ==> effects@.len() == 0,
    {
        let mut effects: Vec<Effect> = Vec::new();
        Self::stop_lan_broadcast(&mut self.background, &mut effects);
        effects
    }

    /// The background stop of the scan finished: a new scan starts if one is
    /// wanted.
    pub fn host_scan_stopped(&mut self) -> (effects: Vec<Effect>)
        requires
            old(self).wf(),
        ensures
            final(self).wf(),
            final(self).activity == old(self).activity,
            final(self).keeps_settings(old(self)),
            final(self).background == (Background {
                host_scanner_stopping: false,
                ..old(self).background
            }),
            final(self).scan_wanted() ==> effects@ == seq![Effect::StartHostScan],
            !final(self).scan_wanted() ==> effects@.len() == 0,
    {
        self.background.host_scanner_stopping = false;
        let mut effects: Vec<Effect> = Vec::new();
        self.start_host_scan(&mut effects);
        effects
    }

    /// What the running scan found since the last look, and whether it has
    /// finished.  A found server fills the host port unless the port is
    /// typed by hand.
    pub fn host_scan_progress(&mut self, detected: Option<u16>, finished: bool) -> (effects: Vec<
        Effect,
    >)
        requires
            old(self).wf(),
            old(self).background.host_scanner,
        ensures
            final(self).wf(),
            final(self).activity == old(self).activity,
            final(self).mode == old(self).mode,
            final(self).window == old(self).window,
            final(self).persisted == old(self).persisted,
            final(self).background == (Background {
                detected_mc_port: match detected {
                    Some(p) => Some(p),
                    None => old(self).background.detected_mc_port,
                },
                host_scanner: !finished,
                ..old(self).background
            }),
            match detected {
                Some(p) => if !old(self).form.host_manual_port {
                    final(self).form.host_port@ == decimal(p as nat) && final(self).form == (Form {
                        host_port: final(self).form.host_port,
                        ..old(self).form
                    }) && final(self).profile == (ProfileSettings {
                        host_port: p,
                        ..old(self).profile
                    })
                } else {
                    final(self).form == old(self).form && final(self).profile == old(self).profile
                },
                None => final(self).form == old(self).form && final(self).profile == old(
                    self,
                ).profile,
            },
            effects@ == (if detected is Some && !old(self).form.host_manual_port {
                seq![Effect::PersistProfile]
            } else {
                Seq::empty()
            }) + (if finished {
                seq![Effect::CloseHostScanner]
            } else {
                Seq::empty()
            }),
    {
        let mut effects: Vec<Effect> = Vec::new();
        if let Some(port) = detected {
            self.background.detected_mc_port = Some(port);
            if !self.form.host_manual_port {
                self.form.host_port = decimal_string(port as u64);
                self.profile.host_port = port;
                effects.push(Effect::PersistProfile);
            }
        }
        if finished {
            self.background.host_scanner = false;
            effects.push(Effect::CloseHostScanner);
        }
        proof {
            let a: Seq<Effect> = if detected is Some && !old(self).form.host_manual_port {
                seq![Effect::PersistProfile]
            } else {
                Seq::empty()
            };
            let b: Seq<Effect> = if finished {
                seq![Effect::CloseHostScanner]
            } else {
                Seq::empty()
            };
            assert(effects@ =~= a + b);
        }
        effects
    }

    /// A stopped tunnel: no announcement, nothing pending, nothing runs.
    fn finish_stopped(&mut self, effects: &mut Vec<Effect>)
        ensures
            final(self).activity == (Activity {
                stop_pending: false,
                phase: Phase::Idle,
                active_mode: None,
                ..old(self).activity
            }),
            final(self).background == (Background {
                lan_broadcasting: false,
                ..old(self).background
            }),
            final(self).keeps_settings(old(self)),
            final(effects)@ == (if old(self).background.lan_broadcasting {
                old(effects)@.push(Effect::StopLanBroadcast)
            } else {
                old(effects)@
            }).push(Effect::Log(Notice::TunnelClosed)),
    {
        Self::stop_lan_broadcast(&mut self.background, effects);
        effects.push(Effect::Log(Notice::TunnelClosed));
        self.activity.stop_pending = false;
        self.activity.phase = Phase::Idle;
        self.activity.active_mode = None;
    }

    /// A finished host task: nothing pending, nothing runs, no share link,
    /// and the scan for a local server resumes if it is wanted.
    fn finish_host(&mut self, effects: &mut Vec<Effect>)
        ensures
            final(self).activity == (Activity {
                stop_pending: false,
                rotate_pending: false,
                phase: Phase::Idle,
                active_mode: None,
                host_task: false,
                share_uri: None,
                ..old(self).activity
            }),
            final(self).background == old(self).background,
            final(self).keeps_settings(old(self)),
            final(effects)@ == (if final(self).scan_wanted() {
                old(effects)@.push(Effect::ClearHostStatus).push(Effect::StartHostScan)
            } else {
                old(effects)@.push(Effect::ClearHostStatus)
            }),
    {
        self.activity.stop_pending = false;
        self.activity.rotate_pending = false;
        self.activity.phase = Phase::Idle;
        self.activity.active_mode = None;
        self.activity.host_task = false;
        self.activity.share_uri = None;
        effects.push(Effect::ClearHostStatus);
        self.start_host_scan(effects);
    }

    /// The joined tunnel could not be shut down: it goes on, and is announced
    /// again when it is active and listens on a port.
    pub fn join_stop_failed(&mut self, phase: Phase, local_port: Option<u16>) -> (effects: Vec<
        Effect,
    >)
        requires
            old(self).wf(),
        ensures
            final(self).wf(),
            final(self).activity == (Activity { stop_pending: false, ..old(self).activity }),
            final(self).keeps_settings(old(self)),
            (old(self).activity.active_mode == Some(Mode::Join) && phase == Phase::Active
                && local_port is Some) ==> {
                &&& final(self).background == (Background {
                    lan_broadcasting: false,
                    ..old(self).background
                })
                &&& effects@.len() > 0
                &&& effects@.drop_last() == if old(self).background.lan_broadcasting {
                    seq![Effect::StopLanBroadcast]
                } else {
                    Seq::empty()
                }
                &&& is_broadcast_start(effects@.last(), local_port->0)
            },
            !(old(self).activity.active_mode == Some(Mode::Join) && phase == Phase::Active
                && local_port is Some) ==> final(self).background == old(self).background
                && effects@.len() == 0,
    {
        self.activity.stop_pending = false;
        let mut effects: Vec<Effect> = Vec::new();
        if self.activity.active_mode == Some(Mode::Join) && phase == Phase::Active {
            if let Some(port) = local_port {
                Self::start_lan_broadcast(&mut self.background, port, &mut effects);
                assert(effects@.drop_last() =~= if old(self).background.lan_broadcasting {
                    seq![Effect::StopLanBroadcast]
                } else {
                    Seq::<Effect>::empty()
                });
            }
        }
        effects
    }

    /// An event of the joined tunnel: losing the connection ends the
    /// announcement, reconnecting to an active tunnel renews it.  The log
    /// line for a reconnect attempt names the timeout when one is set.
    pub fn apply_join_event(&mut self, event: JoinEvent) -> (effects: Vec<Effect>)
        requires
            old(self).wf(),
        ensures
            final(self).wf(),
            final(self).activity == old(self).activity,
            final(self).keeps_settings(old(self)),
            effects@.len() > 0,
            effects@.last() == match event {
                JoinEvent::Reconnecting(attempt) => if !old(self).form.reconnect_unlimited {
                    Effect::Log(
                        Notice::ReconnectingLimited {
                            attempt,
                            max_secs: old(self).form.reconnect_timeout_secs,
                        },
                    )
                } else {
                    Effect::Log(Notice::TunnelEvent)
                },
                _ => Effect::Log(Notice::TunnelEvent),
            },
            ({
                let joined = old(self).activity.active_mode == Some(Mode::Join);
                let renews = joined && event == JoinEvent::Reconnected && old(self).activity.phase
                    == Phase::Active && !old(self).activity.stop_pending
                    && old(self).activity.join_local_port is Some;
                let ends = joined && (event == JoinEvent::Disconnected || event is Reconnecting);
                let stops = if old(self).background.lan_broadcasting {
                    seq![Effect::StopLanBroadcast]
                } else {
                    Seq::empty()
                };
                &&& (renews || ends) ==> final(self).background == (Background {
                    lan_broadcasting: false,
                    ..old(self).background
                })
                &&& !(renews || ends) ==> final(self).background == old(self).background
                    && effects@.len() == 1
                &&& ends ==> effects@.drop_last() == stops
                &&& renews ==> effects@.len() >= 2 && is_broadcast_start(
                    effects@[effects@.len() - 2],
                    old(self).activity.join_local_port->0,
                ) && effects@.drop_last().drop_last() == stops
            }),
    {
        let mut effects: Vec<Effect> = Vec::new();
        if self.activity.active_mode == Some(Mode::Join) {
            match event {
                JoinEvent::Disconnected | JoinEvent::Reconnecting(_) => {
                    Self::stop_lan_broadcast(&mut self.background, &mut effects);
                },
                JoinEvent::Reconnected => {
                    if self.activity.phase == Phase::Active && !self.activity.stop_pending {
                        if let Some(port) = self.activity.join_local_port {
                            Self::start_lan_broadcast(&mut self.background, port, &mut effects);
                        }
                    }
                },
                JoinEvent::Other => {},
            }
        }
        let ghost before = effects@;
        let notice = match event {
            JoinEvent::Reconnecting(attempt) => if !self.form.reconnect_unlimited {
                Notice::ReconnectingLimited { attempt, max_secs: self.form.reconnect_timeout_secs }
            } else {
                Notice::TunnelEvent
            },
            _ => Notice::TunnelEvent,
        };
        effects.push(Effect::Log(notice));
        assert(effects@.drop_last() =~= before);
        proof {
            if before.len() > 0 {
                assert(effects@[effects@.len() - 2] == before.last());
                assert(effects@.drop_last().drop_last() =~= before.drop_last());
            }
            if !old(self).background.lan_broadcasting {
                assert(before.len() == 0 ==> before =~= Seq::<Effect>::empty());
            }
        }
        effects
    }

    /// A status of the join tunnel.  Becoming active stores the share link
    /// that was joined and announces the tunnel; becoming idle ends it,
    /// quietly when it never got past starting.
    pub fn apply_join_status(&mut self, phase: Phase, local_port: Option<u16>) -> (effects: Vec<
        Effect,
    >)
        requires
            old(self).wf(),
        ensures
            final(self).wf(),
            final(self).activity.join_local_port == local_port,
            final(self).mode == old(self).mode,
            final(self).form == old(self).form,
            final(self).window == old(self).window,
            final(self).profile == old(self).profile,
            final(self).activity.host_task == old(self).activity.host_task,
            final(self).activity.rotate_pending == old(self).activity.rotate_pending,
            final(self).activity.share_uri == old(self).activity.share_uri,
            old(self).activity.active_mode != Some(Mode::Join) && phase == Phase::Idle ==> {
                &&& final(self).activity == (Activity {
                    join_local_port: local_port,
                    ..old(self).activity
                })
                &&& final(self).background == old(self).background
                &&& final(self).persisted == old(self).persisted
                &&& effects@.len() == 0
            },
            !(old(self).activity.active_mode != Some(Mode::Join) && phase == Phase::Idle) ==> {
                let previous = old(self).activity.phase;
                let stops: Seq<Effect> = if old(self).background.lan_broadcasting {
                    seq![Effect::StopLanBroadcast]
                } else {
                    Seq::empty()
                };
                &&& final(self).activity.phase == phase
                &&& (previous != Phase::Active && phase == Phase::Active) ==> {
                    &&& final(self).activity == (Activity {
                        phase,
                        join_local_port: local_port,
                        ..old(self).activity
                    })
                    &&& final(self).persisted@ == (PreferencesView {
                        join_uri: trim(old(self).form.join_uri_input@),
                        ..old(self).persisted@
                    })
                    &&& (local_port is Some && !old(self).activity.stop_pending) ==> {
                        &&& final(self).background == (Background {
                            lan_broadcasting: false,
                            ..old(self).background
                        })
                        &&& effects@.len() == stops.len() + 3
                        &&& effects@.take(stops.len() + 1int) == seq![Effect::PersistPreferences]
                            + stops
                        &&& is_broadcast_start(effects@[stops.len() + 1int], local_port->0)
                        &&& effects@.last() == Effect::Log(Notice::JoinedAt)
                    }
                    &&& (local_port is Some && old(self).activity.stop_pending) ==> {
                        &&& final(self).background == old(self).background
                        &&& effects@ == seq![
                            Effect::PersistPreferences,
                            Effect::Log(Notice::JoinedAt),
                        ]
                    }
                    &&& local_port is None ==> {
                        &&& final(self).background == old(self).background
                        &&& effects@ == seq![
                            Effect::PersistPreferences,
                            Effect::Log(Notice::Joined),
                        ]
                    }
                }
                &&& (previous != Phase::Idle && phase == Phase::Idle) ==> {
                    &&& final(self).background == (Background {
                        lan_broadcasting: false,
                        ..old(self).background
                    })
                    &&& final(self).persisted == old(self).persisted
                    &&& (previous == Phase::Starting && !old(self).activity.stop_pending) ==> {
                        &&& final(self).activity == (Activity {
                            phase: Phase::Idle,
                            active_mode: None,
                            join_local_port: local_port,
                            ..old(self).activity
                        })
                        &&& effects@ == stops
                    }
                    &&& !(previous == Phase::Starting && !old(self).activity.stop_pending) ==> {
                        &&& final(self).activity == (Activity {
                            phase: Phase::Idle,
                            active_mode: None,
                            stop_pending: false,
                            join_local_port: local_port,
                            ..old(self).activity
                        })
                        &&& effects@ == stops.push(Effect::Log(Notice::TunnelClosed))
                    }
                }
                &&& !(previous != Phase::Active && phase == Phase::Active) && !(previous
                    != Phase::Idle && phase == Phase::Idle) ==> {
                    &&& final(self).activity == (Activity {
                        phase,
                        join_local_port: local_port,
                        ..old(self).activity
                    })
                    &&& final(self).background == old(self).background
                    &&& final(self).persisted == old(self).persisted
                    &&& effects@.len() == 0
                }
            },
    {
        let mut effects: Vec<Effect> = Vec::new();
        if self.activity.active_mode != Some(Mode::Join) && phase == Phase::Idle {
            self.activity.join_local_port = local_port;
            return effects;
        }
        let previous = self.activity.phase;
        self.activity.phase = phase;
        if previous != Phase::Active && phase == Phase::Active {
            let trimmed = trim_chars(&chars_of(self.form.join_uri_input.as_str()));
            self.persisted.join_uri = string_of(&trimmed);
            effects.push(Effect::PersistPreferences);
            if let Some(port) = local_port {
                if !self.activity.stop_pending {
                    let ghost before = effects@;
                    Self::start_lan_broadcast(&mut self.background, port, &mut effects);
                    let ghost started = effects@;
                    effects.push(Effect::Log(Notice::JoinedAt));
                    proof {
                        let stops: Seq<Effect> = if old(self).background.lan_broadcasting {
                            seq![Effect::StopLanBroadcast]
                        } else {
                            Seq::empty()
                        };
                        assert(before =~= seq![Effect::PersistPreferences]);
                        assert(started.drop_last() =~= seq![Effect::PersistPreferences] + stops);
                        assert(effects@.drop_last() =~= started);
                        assert(effects@.take(stops.len() + 1int) =~= started.drop_last());
                        assert(effects@[stops.len() + 1int] == started.last());
                    }
                } else {
                    effects.push(Effect::Log(Notice::JoinedAt));
                    assert(effects@ =~= seq![
                        Effect::PersistPreferences,
                        Effect::Log(Notice::JoinedAt),
                    ]);
                }
            } else {
                effects.push(Effect::Log(Notice::Joined));
                assert(effects@ =~= seq![Effect::PersistPreferences, Effect::Log(Notice::Joined)]);
            }
        } else if previous != Phase::Idle && phase == Phase::Idle {
            if previous == Phase::Starting && !self.activity.stop_pending {
                Self::stop_lan_broadcast(&mut self.background, &mut effects);
                self.activity.active_mode = None;
                assert(effects@ =~= if old(self).background.lan_broadcasting {
                    seq![Effect::StopLanBroadcast]
                } else {
                    Seq::<Effect>::empty()
                });
            } else {
                self.finish_stopped(&mut effects);
            }
        }
        self.activity.join_local_port = local_port;
        effects
    }

    /// A report of the host task.  Reports that the task stopped, failed, or
    /// lost its Minecraft server end the hosted tunnel.
    pub fn apply_host_update(&mut self, report: HostReport) -> (effects: Vec<Effect>)
        requires
            old(self).wf(),
        ensures
            final(self).wf(),
            final(self).keeps_settings(old(self)),
            (report is MinecraftUnavailable || report is Failed || report is Stopped) ==> {
                &&& final(self).activity == (Activity {
                    stop_pending: false,
                    rotate_pending: false,
                    phase: Phase::Idle,
                    active_mode: None,
                    host_task: false,
                    share_uri: None,
                    ..old(self).activity
                })
                &&& final(self).background == (Background {
                    detected_mc_port: if report is MinecraftUnavailable {
                        None
                    } else {
                        old(self).background.detected_mc_port
                    },
                    ..old(self).background
                })
                &&& effects@.len() >= 2
                &&& effects@[1] == Effect::ClearHostStatus
                &&& final(self).scan_wanted() ==> effects@ == seq![
                    effects@[0],
                    Effect::ClearHostStatus,
                    Effect::StartHostScan,
                ]
                &&& !final(self).scan_wanted() ==> effects@ == seq![
                    effects@[0],
                    Effect::ClearHostStatus,
                ]
            },
            !(report is MinecraftUnavailable || report is Failed || report is Stopped)
                ==> final(self).background == old(self).background,
            match report {
                HostReport::Started(uri) => final(self).activity == (Activity {
                    phase: Phase::Active,
                    share_uri: Some(uri),
                    ..old(self).activity
                }) && effects@ == seq![
                    Effect::CopyText(uri),
                    Effect::Log(Notice::ShareUriCopied),
                    Effect::Log(Notice::HostReady),
                ],
                HostReport::Status => final(self).activity == old(self).activity && effects@.len()
                    == 0,
                HostReport::UriChanged(uri) => final(self).activity == (Activity {
                    rotate_pending: false,
                    share_uri: Some(uri),
                    ..old(self).activity
                }) && effects@ == seq![
                    Effect::CopyText(uri),
                    Effect::Log(Notice::ShareUriRefreshed),
                ],
                HostReport::Event => final(self).activity == old(self).activity && effects@
                    == seq![Effect::Log(Notice::TunnelEvent)],
                HostReport::Error(e) => final(self).activity == (Activity {
                    rotate_pending: false,
                    ..old(self).activity
                }) && effects@ == seq![Effect::Log(Notice::ErrorMessage(e))],
                HostReport::MinecraftUnavailable => effects@[0] == Effect::Log(
                    Notice::McServerUnavailable,
                ),
                HostReport::Failed(e) => effects@[0] == Effect::Log(Notice::HostFailed(e)),
                HostReport::Stopped(Ok(())) => effects@[0] == Effect::Log(Notice::TunnelClosed),
                HostReport::Stopped(Err(e)) => effects@[0] == Effect::Log(Notice::StopFailed(e)),
            },
    {
        let mut effects: Vec<Effect> = Vec::new();
        match report {
            HostReport::Started(uri) => {
                self.activity.phase = Phase::Active;
                effects.push(Effect::CopyText(uri.clone()));
                self.activity.share_uri = Some(uri);
                effects.push(Effect::Log(Notice::ShareUriCopied));
                effects.push(Effect::Log(Notice::HostReady));
            },
            HostReport::Status => {},
            HostReport::UriChanged(uri) => {
                self.activity.rotate_pending = false;
                effects.push(Effect::CopyText(uri.clone()));
                self.activity.share_uri = Some(uri);
                effects.push(Effect::Log(Notice::ShareUriRefreshed));
            },
            HostReport::Event => {
                effects.push(Effect::Log(Notice::TunnelEvent));
            },
            HostReport::Error(e) => {
                self.activity.rotate_pending = false;
                effects.push(Effect::Log(Notice::ErrorMessage(e)));
            },
            HostReport::MinecraftUnavailable => {
                self.background.detected_mc_port = None;
                effects.push(Effect::Log(Notice::McServerUnavailable));
                self.finish_host(&mut effects);
            },
            HostReport::Failed(e) => {
                effects.push(Effect::Log(Notice::HostFailed(e)));
                self.finish_host(&mut effects);
            },
            HostReport::Stopped(result) => {
                match result {
                    Ok(()) => effects.push(Effect::Log(Notice::TunnelClosed)),
                    Err(e) => effects.push(Effect::Log(Notice::StopFailed(e))),
                }
                self.finish_host(&mut effects);
            },
        }
        proof {
            if report is MinecraftUnavailable || report is Failed || report is Stopped {
                if self.scan_wanted() {
                    assert(effects@ =~= seq![
                        effects@[0],
                        Effect::ClearHostStatus,
                        Effect::StartHostScan,
                    ]);
                } else {
                    assert(effects@ =~= seq![effects@[0], Effect::ClearHostStatus]);
                }
            }
        }
        effects
    }

    /// Stores the relay and reconnect settings of the settings page.
    pub fn save_settings(&mut self) -> (effects: Vec<Effect>)
        requires
            old(self).wf(),
        ensures
            final(self).wf(),
            final(self).mode == old(self).mode,
            final(self).activity == old(self).activity,
            final(self).background == old(self).background,
            final(self).form == old(self).form,
            final(self).window == old(self).window,
            final(self).profile.relay_custom == old(self).form.relay_custom,
            final(self).profile.relay_url is None <==> old(self).form.relay_url@.len() == 0,
            (final(self).profile.relay_url matches Some(u) ==> u@ == old(self).form.relay_url@),
            final(self).profile.host_port == old(self).profile.host_port,
            final(self).profile.join_port == old(self).profile.join_port,
            final(self).profile.token_refresh == old(self).profile.token_refresh,
            final(self).persisted@ == (PreferencesView {
                reconnect_timeout_secs: if old(self).form.reconnect_unlimited {
                    None
                } else {
                    Some(old(self).form.reconnect_timeout_secs)
                },
                ..old(self).persisted@
            }),
            effects@ == seq![
                Effect::PersistProfile,
                Effect::PersistPreferences,
                Effect::Log(Notice::SettingsSaved),
            ],
    {
        self.profile.relay_custom = self.form.relay_custom;
        self.profile.relay_url = if self.form.relay_url.as_str().is_empty() {
            None
        } else {
            Some(self.form.relay_url.clone())
        };
        self.persisted.reconnect_timeout_secs = if self.form.reconnect_unlimited {
            None
        } else {
            Some(self.form.reconnect_timeout_secs)
        };
        let mut effects: Vec<Effect> = Vec::new();
        effects.push(Effect::PersistProfile);
        effects.push(Effect::PersistPreferences);
        effects.push(Effect::Log(Notice::SettingsSaved));
        effects
    }

    /// Stores the appearance and window preferences, with the locale in use.
    pub fn save_preference_settings(&mut self, locale: String) -> (effects: Vec<Effect>)
        requires
            old(self).wf(),
        ensures
            final(self).wf(),
            final(self).mode == old(self).mode,
            final(self).activity == old(self).activity,
            final(self).background == old(self).background,
            final(self).form == old(self).form,
            final(self).window == old(self).window,
            final(self).profile == old(self).profile,
            final(self).persisted@ == (PreferencesView {
                theme: theme_name_text(old(self).window.theme),
                locale: locale@,
                remember_window_state: old(self).window.remember_window_state,
                close_action: old(self).window.close_action,
                ..old(self).persisted@
            }),
            effects@ == seq![Effect::PersistPreferences, Effect::Log(Notice::PreferencesSaved)],
    {
        self.persisted.theme = string_of(&chars_of(theme_name(self.window.theme)));
        self.persisted.locale = locale;
        self.persisted.remember_window_state = self.window.remember_window_state;
        self.persisted.close_action = self.window.close_action;
        let mut effects: Vec<Effect> = Vec::new();
        effects.push(Effect::PersistPreferences);
        effects.push(Effect::Log(Notice::PreferencesSaved));
        effects
    }

    /// Follows another theme; the result says whether it changed.
    pub fn set_theme(&mut self, theme: ThemePreference) -> (changed: bool)
        requires
            old(self).wf(),
        ensures
            final(self).wf(),
            changed == (theme != old(self).window.theme),
            final(self).window == (Window { theme, ..old(self).window }),
            final(self).mode == old(self).mode,
            final(self).activity == old(self).activity,
            final(self).background == old(self).background,
            final(self).form == old(self).form,
            final(self).profile == old(self).profile,
            final(self).persisted == old(self).persisted,
    {
        if self.window.theme == theme {
            return false;
        }
        self.window.theme = theme;
        true
    }

    /// How long a joined tunnel keeps trying to reconnect, in seconds; none
    /// means for ever.
    pub fn reconnect_timeout(&self) -> (r: Option<u64>)
        ensures
            r == if self.form.reconnect_unlimited {
                None
            } else {
                Some(self.form.reconnect_timeout_secs)
            },
    {
        if self.form.reconnect_unlimited {
            None
        } else {
            Some(self.form.reconnect_timeout_secs)
        }
    }

    /// Whether the joined tunnel's address and connections are shown.
    pub fn shows_join_details(&self) -> (r: bool)
        ensures
            r == (self.activity.active_mode == Some(Mode::Join)),
    {
        self.activity.active_mode == Some(Mode::Join)
    }

    /// Whether a request to close the window only hides it.
    pub fn should_hide_window(&self, close_requested: bool) -> (r: bool)
        ensures
            r == (close_requested && !self.window.exit_requested && self.window.close_action
                == CloseAction::HideToTray && self.window.close_to_tray && self.window.tray_ready),
    {
        should_hide_on_close(
            close_requested,
            self.window.exit_requested,
            self.window.close_action,
            self.window.close_to_tray && self.window.tray_ready,
        )
    }

    /// Whether the window must look again soon for reports of outside work.
    pub fn needs_repaint(&self) -> (r: bool)
        ensures
            r == (self.activity.stop_pending || self.activity.rotate_pending || !self.idle() || (
            self.mode == Mode::Host && self.background.host_scanner)
                || self.background.host_scanner_stopping),
    {
        self.activity.stop_pending || self.activity.rotate_pending || self.activity.phase
            != Phase::Idle || (self.mode == Mode::Host && self.background.host_scanner)
            || self.background.host_scanner_stopping
    }

    /// Whether the page tabs react: nothing runs and no stop is pending.
    pub fn controls_enabled(&self) -> (r: bool)
        ensures
            r == (self.idle() && !self.activity.stop_pending),
    {
        self.activity.phase == Phase::Idle && !self.activity.stop_pending
    }

    /// Whether the start button of the host page reacts: no stop is pending
    /// and the port to expose is known.
    pub fn can_start_host(&self) -> (r: bool)
        ensures
            r == (!self.activity.stop_pending && if self.form.host_manual_port {
                port_from_text(self.form.host_port@) is Ok
            } else {
                self.background.detected_mc_port is Some
            }),
    {
        !self.activity.stop_pending && self.host_port_ready()
    }

    /// Whether the button that asks for a new share link reacts: no such
    /// request and no stop is pending.
    pub fn can_request_new_link(&self) -> (r: bool)
        ensures
            r == (!self.activity.rotate_pending && !self.activity.stop_pending),
    {
        !self.activity.rotate_pending && !self.activity.stop_pending
    }

    /// The window closes: the scan and the announcement stop, the host task
    /// is asked to stop, and the join tunnel is shut down.
    pub fn shutdown(&mut self) -> (effects: Vec<Effect>)
        requires
            old(self).wf(),
        ensures
            final(self).wf(),
            !final(self).background.host_scanner && !final(self).background.lan_broadcasting
                && !final(self).activity.host_task,
            final(self).keeps_settings(old(self)),
            effects@ == (if old(self).background.host_scanner {
                seq![Effect::StopHostScan]
            } else {
                Seq::empty()
            }) + (if old(self).background.lan_broadcasting {
                seq![Effect::StopLanBroadcast]
            } else {
                Seq::empty()
            }) + (if old(self).activity.host_task {
                seq![Effect::SendHostStop]
            } else {
                Seq::empty()
            }) + seq![Effect::ShutdownJoin],
    {
        let mut effects: Vec<Effect> = Vec::new();
        Self::stop_host_scan(&mut self.background, &mut effects);
        let ghost a = effects@;
        Self::stop_lan_broadcast(&mut self.background, &mut effects);
        let ghost b = effects@;
        if self.activity.host_task {
            self.activity.host_task = false;
            effects.push(Effect::SendHostStop);
        }
        effects.push(Effect::ShutdownJoin);
        proof {
            let sa: Seq<Effect> = if old(self).background.host_scanner {
                seq![Effect::StopHostScan]
            } else {
                Seq::empty()
            };
            let sb: Seq<Effect> = if old(self).background.lan_broadcasting {
                seq![Effect::StopLanBroadcast]
            } else {
                Seq::empty()
            };
            let sc: Seq<Effect> = if old(self).activity.host_task {
                seq![Effect::SendHostStop]
            } else {
                Seq::empty()
            };
            assert(a =~= sa);
            assert(b =~= sa + sb);
            assert(effects@ =~= sa + sb + sc + seq![Effect::ShutdownJoin]);
        }
        effects
    }
}

} // verus!
