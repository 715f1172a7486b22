//! Decisions of the task that runs a hosted tunnel: how long a share link
//! lives, when a missing Minecraft server stops the tunnel, which events reach
//! the window and when a new share link is published.
use crate::number::decimal_chars;
use crate::text::{push_all, push_str, string_of};
use vstd::prelude::*;

verus! {

/// How often the share link is renewed, as the user stores it.
#[derive(Clone, Copy, Debug, PartialEq, Eq, Structural)]
pub enum RefreshSetting {
    Always,
    Never,
    OneHour,
    ThreeHours,
    SixHours,
    TwelveHours,
    TwentyFourHours,
}

/// When the tunnel renews its access token.
#[derive(Clone, Copy, Debug, PartialEq, Eq, Structural)]
pub enum RefreshPolicy {
    /// A new token every time the service is published.
    Always,
    /// The saved token until it is renewed by hand.
    Never,
    /// A new token once the current one is this many seconds old.
    After(u64),
}

pub open spec fn refresh_policy_for(setting: RefreshSetting) -> RefreshPolicy {
    match setting {
        RefreshSetting::Always => RefreshPolicy::Always,
        RefreshSetting::Never => RefreshPolicy::Never,
        RefreshSetting::OneHour => RefreshPolicy::After(3600),
        RefreshSetting::ThreeHours => RefreshPolicy::After(10800),
        RefreshSetting::SixHours => RefreshPolicy::After(21600),
        RefreshSetting::TwelveHours => RefreshPolicy::After(43200),
        RefreshSetting::TwentyFourHours => RefreshPolicy::After(86400),
    }
}

/// Every setting, in the order the host page offers them.
pub fn refresh_settings() -> (r: [RefreshSetting; 7])
    ensures
        r@ == seq![
            RefreshSetting::Always,
            RefreshSetting::Never,
            RefreshSetting::OneHour,
            RefreshSetting::ThreeHours,
            RefreshSetting::SixHours,
            RefreshSetting::TwelveHours,
            RefreshSetting::TwentyFourHours,
        ],
{
    [
        RefreshSetting::Always,
        RefreshSetting::Never,
        RefreshSetting::OneHour,
        RefreshSetting::ThreeHours,
        RefreshSetting::SixHours,
        RefreshSetting::TwelveHours,
        RefreshSetting::TwentyFourHours,
    ]
}

/// The token policy that a stored setting stands for.
pub fn token_refresh_policy(setting: RefreshSetting) -> (r: RefreshPolicy)
    ensures
        r == refresh_policy_for(setting),
{
    match setting {
        RefreshSetting::Always => RefreshPolicy::Always,
        RefreshSetting::Never => RefreshPolicy::Never,
        RefreshSetting::OneHour => RefreshPolicy::After(60 * 60),
        RefreshSetting::ThreeHours => RefreshPolicy::After(3 * 60 * 60),
        RefreshSetting::SixHours => RefreshPolicy::After(6 * 60 * 60),
        RefreshSetting::TwelveHours => RefreshPolicy::After(12 * 60 * 60),
        RefreshSetting::TwentyFourHours => RefreshPolicy::After(24 * 60 * 60),
    }
}

/// Consecutive failed probes of the Minecraft server after which the
/// tunnel stops.
pub const MC_HEALTH_FAILURES_MAX: u8 = 3;

/// Counts one probe of the Minecraft server: a success clears the count of
/// consecutive failures, a failure adds one (the count stops at `u8::MAX`).
/// The result says whether the failures have reached the limit.
pub fn record_health_check(failures: &mut u8, available: bool) -> (stop: bool)
    ensures
        available ==> *final(failures) == 0 && !stop,
        !available ==> *final(failures) == (if *old(failures) == u8::MAX {
            u8::MAX as int
        } else {
            *old(failures) + 1
        }) && stop == (*final(failures) >= MC_HEALTH_FAILURES_MAX),
{
    if available {
        *failures = 0;
        return false;
    }
    *failures = if *failures == u8::MAX {
        u8::MAX
    } else {
        *failures + 1
    };
    *failures >= MC_HEALTH_FAILURES_MAX
}

/// The number of failed probes at the end of `checks` (`true` for a
/// success), counted back to the last success.
pub open spec fn trailing_failures(checks: Seq<bool>) -> nat
    decreases checks.len(),
{
    if checks.len() == 0 || checks.last() {
        0
    } else {
        trailing_failures(checks.drop_last()) + 1
    }
}

/// The failure count after recording `checks` in order from zero.
pub open spec fn failures_after(checks: Seq<bool>) -> u8
    decreases checks.len(),
{
    if checks.len() == 0 {
        0
    } else if checks.last() {
        0
    } else {
        let f = failures_after(checks.drop_last());
        if f == u8::MAX {
            u8::MAX
        } else {
            (f + 1) as u8
        }
    }
}

/// The failure count is the number of trailing failures (up to the
/// count's limit), so the tunnel stops exactly when the last three probes
/// failed.
pub proof fn lemma_health_stops_after_three_failures(checks: Seq<bool>)
    ensures
        failures_after(checks) == if trailing_failures(checks) < 255 {
            trailing_failures(checks)
        } else {
            255
        },
        (failures_after(checks) >= MC_HEALTH_FAILURES_MAX) == (trailing_failures(checks) >= 3),
    decreases checks.len(),
{
    if checks.len() > 0 && !checks.last() {
        lemma_health_stops_after_three_failures(checks.drop_last());
    }
}

/// What becomes of an event of the hosted service.
#[derive(Clone, Copy, Debug, PartialEq, Eq, Structural)]
pub enum EventDisposition {
    /// Shown in the window now.
    Forward,
    /// Kept back until the next probe shows whether the server is there.
    Hold,
    /// Dropped: an earlier event of the same kind is already kept back.
    Drop,
}

/// What becomes of a status of the hosted service.
#[derive(Clone, Copy, Debug, PartialEq, Eq, Structural)]
pub enum StatusDisposition {
    /// A newer share link exists: store the service state and publish it.
    Republish,
    /// Shown in the window as it is.
    Forward,
}

/// What a probe of the Minecraft server leads to.
#[derive(Clone, Copy, Debug, PartialEq, Eq, Structural)]
pub struct HealthOutcome {
    /// The kept-back event is shown now.
    pub release_held: bool,
    /// The tunnel stops.
    pub stop: bool,
}

/// The state that the host task keeps between the things it waits on.
pub struct HostMonitor {
    /// Generation of the share link last published.
    pub uri_generation: u64,
    /// Consecutive failed probes of the Minecraft server.
    pub health_failures: u8,
    /// An event that reported the Minecraft server unreachable is kept back.
    pub holding_target_error: bool,
}

impl HostMonitor {
    /// The monitor once the first share link, of the given generation, is
    /// published.
    pub fn new(uri_generation: u64) -> (m: HostMonitor)
        ensures
            m.uri_generation == uri_generation,
            m.health_failures == 0,
            !m.holding_target_error,
    {
        HostMonitor { uri_generation, health_failures: 0, holding_target_error: false }
    }

    /// An event arrived.  Reports that the Minecraft server is unreachable are
    /// kept back (the first one only) until the next probe: a server that is
    /// back by then makes them worth showing, one that is gone stops the
    /// tunnel anyway.
    pub fn on_event(&mut self, target_unavailable: bool) -> (d: EventDisposition)
        ensures
            !target_unavailable ==> d == EventDisposition::Forward && *final(self) == *old(self),
            target_unavailable && old(self).holding_target_error ==> d == EventDisposition::Drop
                && *final(self) == *old(self),
            target_unavailable && !old(self).holding_target_error ==> d == EventDisposition::Hold
                && *final(self) == (HostMonitor { holding_target_error: true, ..*old(self) }),
    {
        if !target_unavailable {
            EventDisposition::Forward
        } else if self.holding_target_error {
            EventDisposition::Drop
        } else {
            self.holding_target_error = true;
            EventDisposition::Hold
        }
    }

    /// A status arrived.  One that carries a newer share link generation
    /// becomes the generation last published.
    pub fn on_status(&mut self, generation: u64) -> (d: StatusDisposition)
        ensures
            generation > old(self).uri_generation ==> d == StatusDisposition::Republish
                && *final(self) == (HostMonitor { uri_generation: generation, ..*old(self) }),
            generation <= old(self).uri_generation ==> d == StatusDisposition::Forward
                && *final(self) == *old(self),
            final(self).uri_generation >= old(self).uri_generation,
    {
        if generation > self.uri_generation {
            self.uri_generation = generation;
            StatusDisposition::Republish
        } else {
            StatusDisposition::Forward
        }
    }

    /// A probe of the Minecraft server finished.
    pub fn on_health_check(&mut self, available: bool) -> (o: HealthOutcome)
        ensures
            o.release_held == (available && old(self).holding_target_error),
            final(self).holding_target_error == (old(self).holding_target_error && !available),
            final(self).uri_generation == old(self).uri_generation,
            available ==> final(self).health_failures == 0 && !o.stop,
            !available ==> final(self).health_failures == (if old(self).health_failures
                == u8::MAX {
                u8::MAX as int
            } else {
                old(self).health_failures + 1
            }) && o.stop == (final(self).health_failures >= MC_HEALTH_FAILURES_MAX),
    {
        let release_held = available && self.holding_target_error;
        if release_held {
            self.holding_target_error = false;
        }
        let stop = record_health_check(&mut self.health_failures, available);
        HealthOutcome { release_held, stop }
    }
}

pub open spec fn lagged_text(count: u64) -> Seq<char> {
    "missed "@ + crate::number::decimal(count as nat) + " host events"@
}

/// The error shown when the window fell behind the host's events.
pub fn lagged_message(count: u64) -> (s: String)
    ensures
        s@ == lagged_text(count),
{
    let mut out: Vec<char> = Vec::new();
    push_str(&mut out, "missed ");
    let d = decimal_chars(count);
    push_all(&mut out, &d);
    push_str(&mut out, " host events");
    string_of(&out)
}

/// The steps that publish a hosted service, in the order the host task
/// takes them.
#[derive(Clone, Copy, Debug, PartialEq, Eq, Structural)]
pub enum StartupStep {
    /// Probe the local Minecraft server.
    ProbeServer,
    /// Load the stored service state.
    LoadState,
    /// Bind the tunnel node.
    BindNode,
    /// Start the service on the node.
    StartService,
    /// Subscribe to the service's events.
    SubscribeEvents,
    /// Subscribe to the service's statuses.
    SubscribeStatus,
    /// Store the service state.
    PersistState,
    /// Read the service's first status.
    ReadStatus,
    /// Read the share link.
    ExposeUri,
    /// Tell the window that the service runs.
    Announce,
}

/// What the window hears when a step of the start fails.
#[derive(Clone, Copy, Debug, PartialEq, Eq, Structural)]
pub enum StartupReport {
    /// The Minecraft server does not answer.
    MinecraftUnavailable,
    /// The step failed, for the reason it gave.
    Failed,
    /// Nothing: the window no longer listens.
    Silent,
}

/// How the host task ends when a step of the start fails: it closes the
/// node if one is bound, tells the window, and stops.
#[derive(Clone, Copy, Debug, PartialEq, Eq, Structural)]
pub struct StartupExit {
    pub close_node: bool,
    pub report: StartupReport,
}

/// Whether the node is bound when `step` runs.
pub open spec fn node_bound_at(step: StartupStep) -> bool {
    !(step == StartupStep::ProbeServer || step == StartupStep::LoadState || step
        == StartupStep::BindNode)
}

/// How the host task ends when `step` fails: the node is closed exactly when
/// it was bound; a failed probe reports the missing server, a failed
/// announcement reports nothing, and every other step reports its failure.
pub fn startup_exit(step: StartupStep) -> (e: StartupExit)
    ensures
        e.close_node == node_bound_at(step),
        e.report == match step {
            StartupStep::ProbeServer => StartupReport::MinecraftUnavailable,
            StartupStep::Announce => StartupReport::Silent,
            _ => StartupReport::Failed,
        },
{
    let close_node = match step {
        StartupStep::ProbeServer | StartupStep::LoadState | StartupStep::BindNode => false,
        _ => true,
    };
    let report = match step {
        StartupStep::ProbeServer => StartupReport::MinecraftUnavailable,
        StartupStep::Announce => StartupReport::Silent,
        _ => StartupReport::Failed,
    };
    StartupExit { close_node, report }
}

pub open spec fn bind_timeout_text() -> Seq<char> {
    "node startup timed out; check relay settings"@
}

/// The failure reported when binding the node takes too long.
pub fn bind_timeout_message() -> (s: String)
    ensures
        s@ == bind_timeout_text(),
{
    String::from_str("node startup timed out; check relay settings")
}

} // verus!
