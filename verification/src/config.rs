//! Telemetry settings: the mode a user chose and the analytics fields that
//! older configuration files still carry.

use vstd::prelude::*;

verus! {

/// How much telemetry the user allows.
///
/// - `Disabled`: no client is installed at all.
/// - `SessionMetrics`: lifecycle (session) events only.
/// - `Enabled`: lifecycle and product analytics events.
#[derive(Clone, Copy, Debug, PartialEq, Eq, Structural)]
pub enum TelemetryMode {
    Disabled,
    SessionMetrics,
    Enabled,
}

impl TelemetryMode {
    /// `true` only in `Enabled` mode: product analytics may fire.
    pub fn is_enabled(&self) -> (b: bool)
        ensures
            b == (*self is Enabled),
    {
        match self {
            TelemetryMode::Enabled => true,
            _ => false,
        }
    }

    /// `true` in `Enabled` and `SessionMetrics` mode: lifecycle events may fire.
    pub fn session_metrics_enabled(&self) -> (b: bool)
        ensures
            b == (*self is Enabled || *self is SessionMetrics),
    {
        match self {
            TelemetryMode::Disabled => false,
            _ => true,
        }
    }

    /// `true` only in `Disabled` mode.
    pub fn is_disabled(&self) -> (b: bool)
        ensures
            b == (*self is Disabled),
    {
        match self {
            TelemetryMode::Disabled => true,
            _ => false,
        }
    }
}

/// Analytics settings as configuration files and the environment spell them.
///
/// None of these fields is consulted any more: no events endpoint and no
/// Mixpanel client exist. They are kept so that existing files still parse.
pub struct TelemetryConfig {
    pub events_url: Option<String>,
    pub events_api_key: Option<String>,
    pub mixpanel_token: Option<String>,
    pub mixpanel_enabled: bool,
}

/// The configuration that a build starts from configures no analytics sink:
/// no events endpoint, no API key, no Mixpanel token, Mixpanel off.
pub open spec fn configures_no_analytics_sink(c: TelemetryConfig) -> bool {
    &&& c.events_url is None
    &&& c.events_api_key is None
    &&& c.mixpanel_token is None
    &&& !c.mixpanel_enabled
}

impl Default for TelemetryConfig {
    fn default() -> (c: Self)
        ensures
            configures_no_analytics_sink(c),
    {
        TelemetryConfig {
            events_url: None,
            events_api_key: None,
            mixpanel_token: None,
            mixpanel_enabled: false,
        }
    }
}

/// A deployment key together with the deployment id that was derived from it.
///
/// The id is what events carry; the key itself never leaves the caller.
pub struct DeploymentKey {
    pub key: String,
    pub id: String,
}

} // verus!
