use xai_grok_telemetry::client::{
    first_locale, init, init_if_needed, is_enabled, is_session_metrics_enabled, sync_profile, track, Locale,
    TelemetryClient, UserContext, timestamp_text, unix_time, writable_time,
};
use xai_grok_telemetry::config::{DeploymentKey, TelemetryConfig, TelemetryMode};
use xai_grok_telemetry::http::OriginClientInfo;
use xai_grok_telemetry::metadata::Metadata;

fn text(s: &str) -> serde_json::Value {
    serde_json::Value::String(s.to_string())
}

fn build(mode: TelemetryMode) -> TelemetryClient {
    TelemetryClient::from_config(
        TelemetryConfig::default(),
        mode,
        Some("user-7".into()),
        Some("team-3".into()),
        Some(DeploymentKey {
            key: "dk-secret".into(),
            id: "dep-42".into(),
        }),
        Some(OriginClientInfo {
            product: "vscode".into(),
            version: Some("1.90.0".into()),
        }),
        "0.9.1".into(),
        Some("SuperGrok Heavy".into()),
        reqwest::Client::new(),
    )
}

fn install(
    slot: &mut Option<TelemetryClient>,
    mode: TelemetryMode,
    user_id: Option<&str>,
) -> bool {
    init(
        slot,
        TelemetryConfig::default(),
        mode,
        user_id.map(|u| u.to_string()),
        None,
        None,
        None,
        "0.0.0-test".into(),
        None,
        reqwest::Client::new(),
    )
}

/// SessionMetrics must not attempt Mixpanel profile engage — sync_profile
/// is a no-op unless mode is fully Enabled.
#[test]
fn sync_profile_is_noop_in_session_metrics_mode() {
    // No tokio runtime here: a sync that wrongly fell through to a spawn would
    // need one.
    assert!(
        tokio::runtime::Handle::try_current().is_err(),
        "this test must run without a tokio runtime"
    );
    let mut installed: Option<TelemetryClient> = None;

    // Mixpanel configured, but no events endpoint: the slot must never
    // carry a live funnel out of this test.
    let cfg = TelemetryConfig {
        mixpanel_enabled: true,
        mixpanel_token: Some("test-token".into()),
        events_url: None,
        events_api_key: None,
    };
    let due_at_init = init(
        &mut installed,
        cfg,
        TelemetryMode::SessionMetrics,
        Some("user-1".into()),
        None,
        None,
        None,
        "0.0.0-test".into(),
        None,
        reqwest::Client::new(),
    );
    assert!(!due_at_init);
    // Explicit call must no-op too (init already invoked it once).
    assert!(!sync_profile(&installed));
    assert!(
        is_session_metrics_enabled(&installed),
        "client must be live for session metrics"
    );
    assert!(!is_enabled(&installed), "product analytics must stay off");
}

#[test]
fn default_never_configures_an_analytics_sink() {
    let cfg = TelemetryConfig::default();
    assert!(cfg.events_url.is_none());
    assert!(cfg.events_api_key.is_none());
    assert!(cfg.mixpanel_token.is_none());
    assert!(!cfg.mixpanel_enabled);
}

#[test]
fn telemetry_mode_gates() {
    assert!(TelemetryMode::Enabled.is_enabled());
    assert!(TelemetryMode::Enabled.session_metrics_enabled());
    assert!(!TelemetryMode::Enabled.is_disabled());
    assert!(!TelemetryMode::SessionMetrics.is_enabled());
    assert!(TelemetryMode::SessionMetrics.session_metrics_enabled());
    assert!(!TelemetryMode::SessionMetrics.is_disabled());
    assert!(!TelemetryMode::Disabled.is_enabled());
    assert!(!TelemetryMode::Disabled.session_metrics_enabled());
    assert!(TelemetryMode::Disabled.is_disabled());
}

#[test]
fn from_config_records_identity_fields() {
    let c = build(TelemetryMode::Enabled);
    assert_eq!(c.mode(), TelemetryMode::Enabled);
    assert_eq!(c.user_id().as_deref(), Some("user-7"));
    assert_eq!(c.team_id().as_deref(), Some("team-3"));
    assert_eq!(c.deployment_id().as_deref(), Some("dep-42"));
    assert_eq!(c.shell_version(), "0.9.1");
    assert_eq!(c.client_type().as_deref(), Some("vscode"));
    assert_eq!(c.client_version().as_deref(), Some("1.90.0"));
    assert_eq!(c.subscription_tier().as_deref(), Some("supergrok_heavy"));
}

#[test]
fn from_config_drops_empty_deployment_key_and_missing_origin() {
    let c = TelemetryClient::from_config(
        TelemetryConfig::default(),
        TelemetryMode::SessionMetrics,
        None,
        None,
        Some(DeploymentKey {
            key: String::new(),
            id: "dep-from-empty".into(),
        }),
        None,
        "1.0.0".into(),
        Some("Team Pro".into()),
        reqwest::Client::new(),
    );
    assert_eq!(c.mode(), TelemetryMode::SessionMetrics);
    assert!(c.user_id().is_none());
    assert!(c.deployment_id().is_none());
    assert!(c.client_type().is_none());
    assert!(c.client_version().is_none());
    assert_eq!(c.subscription_tier().as_deref(), Some("team_pro"));

    let c2 = TelemetryClient::from_config(
        TelemetryConfig::default(),
        TelemetryMode::Enabled,
        None,
        None,
        None,
        Some(OriginClientInfo {
            product: "tui".into(),
            version: None,
        }),
        "1.0.0".into(),
        None,
        reqwest::Client::new(),
    );
    assert_eq!(c2.client_type().as_deref(), Some("tui"));
    assert!(c2.client_version().is_none());
    assert!(c2.subscription_tier().is_none());
    assert!(c2.deployment_id().is_none());
}

#[test]
fn init_disabled_installs_no_client() {
    let mut slot = Some(build(TelemetryMode::Enabled));
    assert!(is_enabled(&slot));
    let due = install(&mut slot, TelemetryMode::Disabled, Some("u"));
    assert!(!due);
    assert!(slot.is_none());
    assert!(!is_enabled(&slot));
    assert!(!is_session_metrics_enabled(&slot));
    assert!(!sync_profile(&slot));
}

#[test]
fn init_enabled_turns_everything_on_and_syncs_profile() {
    let mut slot: Option<TelemetryClient> = None;
    let due = install(&mut slot, TelemetryMode::Enabled, Some("u"));
    assert!(due);
    assert!(is_enabled(&slot));
    assert!(is_session_metrics_enabled(&slot));
    assert!(sync_profile(&slot));
}

#[test]
fn init_replaces_an_installed_client() {
    let mut slot: Option<TelemetryClient> = None;
    install(&mut slot, TelemetryMode::Enabled, Some("first"));
    install(&mut slot, TelemetryMode::SessionMetrics, Some("second"));
    let c = slot.as_ref().unwrap();
    assert_eq!(c.mode(), TelemetryMode::SessionMetrics);
    assert_eq!(c.user_id().as_deref(), Some("second"));
}

#[test]
fn no_client_means_nothing_is_enabled() {
    let slot: Option<TelemetryClient> = None;
    assert!(!is_enabled(&slot));
    assert!(!is_session_metrics_enabled(&slot));
    assert!(!sync_profile(&slot));
}

#[test]
fn init_if_needed_fills_an_empty_slot() {
    let mut slot: Option<TelemetryClient> = None;
    let due = init_if_needed(
        &mut slot,
        TelemetryConfig::default(),
        TelemetryMode::Enabled,
        Some("late-user".into()),
        None,
        None,
        None,
        "2.0.0".into(),
        Some("Free".into()),
        reqwest::Client::new(),
    );
    assert!(due);
    let c = slot.as_ref().unwrap();
    assert_eq!(c.user_id().as_deref(), Some("late-user"));
    assert_eq!(c.subscription_tier().as_deref(), Some("free"));
}

#[test]
fn init_if_needed_keeps_an_installed_client() {
    let mut slot: Option<TelemetryClient> = None;
    install(&mut slot, TelemetryMode::SessionMetrics, Some("first"));
    let due = init_if_needed(
        &mut slot,
        TelemetryConfig::default(),
        TelemetryMode::Enabled,
        Some("second".into()),
        None,
        None,
        None,
        "2.0.0".into(),
        None,
        reqwest::Client::new(),
    );
    assert!(!due);
    let c = slot.as_ref().unwrap();
    assert_eq!(c.mode(), TelemetryMode::SessionMetrics);
    assert_eq!(c.user_id().as_deref(), Some("first"));
    assert!(!is_enabled(&slot));
}

#[test]
fn init_if_needed_disabled_is_noop() {
    let mut slot: Option<TelemetryClient> = None;
    let due = init_if_needed(
        &mut slot,
        TelemetryConfig::default(),
        TelemetryMode::Disabled,
        Some("u".into()),
        None,
        None,
        None,
        "2.0.0".into(),
        None,
        reqwest::Client::new(),
    );
    assert!(!due);
    assert!(slot.is_none());
}

#[test]
fn track_without_client_assembles_nothing() {
    let slot: Option<TelemetryClient> = None;
    let mut props = Metadata::new();
    props.insert("k".into(), text("v"));
    assert!(track(&slot, "agent-1", props).is_none());
}

#[test]
fn track_stamps_client_identity() {
    let slot = Some(build(TelemetryMode::Enabled));
    let mut props = Metadata::new();
    props.insert("event_prop".into(), text("kept"));
    props.insert("count".into(), serde_json::Value::from(3));
    props.insert("team_id".into(), text("caller-team"));
    let event = track(&slot, "agent-1", props).unwrap();
    assert_eq!(event.user_id, "user-7");
    let m = &event.metadata;
    assert_eq!(m.get("agent_id"), Some(&text("agent-1")));
    assert_eq!(m.get("team_id"), Some(&text("team-3")));
    assert_eq!(m.get("deployment_id"), Some(&text("dep-42")));
    assert_eq!(m.get("shell_version"), Some(&text("0.9.1")));
    assert_eq!(m.get("client_type"), Some(&text("vscode")));
    assert_eq!(m.get("client_version"), Some(&text("1.90.0")));
    assert_eq!(m.get("subscription_tier"), Some(&text("supergrok_heavy")));
    assert_eq!(m.get("event_prop"), Some(&text("kept")));
    assert_eq!(m.get("count"), Some(&serde_json::Value::from(3)));
    assert_eq!(m.len(), 9);
}

#[test]
fn track_falls_back_to_agent_id_and_skips_missing_fields() {
    let mut slot: Option<TelemetryClient> = None;
    install(&mut slot, TelemetryMode::SessionMetrics, None);
    let mut props = Metadata::new();
    props.insert("team_id".into(), text("caller-team"));
    let event = track(&slot, "agent-9", props).unwrap();
    assert_eq!(event.user_id, "agent-9");
    let m = &event.metadata;
    assert_eq!(m.get("agent_id"), Some(&text("agent-9")));
    assert_eq!(m.get("shell_version"), Some(&text("0.0.0-test")));
    assert_eq!(m.get("team_id"), Some(&text("caller-team")));
    assert!(m.get("deployment_id").is_none());
    assert!(m.get("client_type").is_none());
    assert!(m.get("client_version").is_none());
    assert!(m.get("subscription_tier").is_none());
    assert_eq!(m.len(), 3);
}

#[test]
fn user_context_falls_back_to_english_any_dialect() {
    let ctx = UserContext::from_locale(None, "2025-01-02T03:04:05.678Z".into());
    assert_eq!(ctx.country, "**");
    assert_eq!(ctx.language, "en");
    assert_eq!(ctx.timestamp, "2025-01-02T03:04:05.678Z");
}

#[test]
fn user_context_uses_the_preferred_locale() {
    let ctx = UserContext::from_locale(
        Some(Locale {
            country: "US".into(),
            language: "en/US".into(),
        }),
        "t".into(),
    );
    assert_eq!(ctx.country, "US");
    assert_eq!(ctx.language, "en/US");
    assert_eq!(ctx.timestamp, "t");
}

#[test]
fn user_context_collect_reads_locale_and_time() {
    let ctx = UserContext::collect();
    assert!(!ctx.language.is_empty());
    assert!(!ctx.country.is_empty());
    assert!(ctx.timestamp.len() >= 24);
}

#[test]
fn debug_text_shows_only_the_mode() {
    for mode in [
        TelemetryMode::Disabled,
        TelemetryMode::SessionMetrics,
        TelemetryMode::Enabled,
    ] {
        let c = build(mode);
        assert_eq!(
            c.debug_text(),
            format!("TelemetryClient {{ mode: {:?} }}", mode)
        );
    }
    assert_eq!(
        build(TelemetryMode::Enabled).debug_text(),
        "TelemetryClient { mode: Enabled }"
    );
}

fn locale(country: &str, language: &str) -> Locale {
    Locale {
        country: country.into(),
        language: language.into(),
    }
}

#[test]
fn first_locale_picks_the_most_preferred() {
    let first = first_locale(Some(vec![locale("**", "es"), locale("**", "en/US")])).unwrap();
    assert_eq!(first.country, "**");
    assert_eq!(first.language, "es");
    assert!(first_locale(Some(Vec::new())).is_none());
    assert!(first_locale(None).is_none());
}

#[test]
fn user_context_collect_country_is_any_dialect() {
    let ctx = UserContext::collect();
    assert_eq!(ctx.country, "**");
    assert_eq!(ctx.timestamp.len(), 24);
    assert!(ctx.timestamp.ends_with('Z'));
    assert_eq!(&ctx.timestamp[10..11], "T");
}

#[test]
fn unix_time_rounds_down() {
    assert_eq!(unix_time(Ok((0, 0))), Some((0, 0)));
    assert_eq!(unix_time(Ok((1_516_991_409, 453_829_000))), Some((1_516_991_409, 453_829_000)));
    assert_eq!(unix_time(Ok((5, 2_500_000_000))), Some((7, 500_000_000)));
    assert_eq!(unix_time(Err((1, 0))), Some((-1, 0)));
    assert_eq!(unix_time(Err((0, 1))), Some((-1, 999_999_999)));
    assert_eq!(unix_time(Err((2, 250_000_000))), Some((-3, 750_000_000)));
    assert_eq!(unix_time(Ok((u64::MAX, 0))), None);
    assert_eq!(unix_time(Err((9_223_372_036_854_775_808, 0))), Some((i64::MIN, 0)));
    assert_eq!(unix_time(Err((9_223_372_036_854_775_808, 1))), None);
}

#[test]
fn timestamp_text_is_rfc3339_utc_millis() {
    assert_eq!(timestamp_text(Ok((0, 0))), "1970-01-01T00:00:00.000Z");
    assert_eq!(
        timestamp_text(Ok((1_516_991_409, 453_829_000))),
        "2018-01-26T18:30:09.453Z"
    );
    assert_eq!(timestamp_text(Err((1, 0))), "1969-12-31T23:59:59.000Z");
    assert_eq!(timestamp_text(Err((0, 1))), "1969-12-31T23:59:59.999Z");
    assert_eq!(timestamp_text(Ok((253_402_300_799, 999_000_000))), "9999-12-31T23:59:59.999Z");
    assert_eq!(timestamp_text(Err((62_167_219_200, 0))), "0000-01-01T00:00:00.000Z");
    assert_eq!(timestamp_text(Ok((u64::MAX, 0))), "9999-12-31T23:59:59.999Z");
    assert_eq!(timestamp_text(Ok((253_402_300_800, 0))), "9999-12-31T23:59:59.999Z");
    assert_eq!(timestamp_text(Err((62_167_219_201, 0))), "0000-01-01T00:00:00.000Z");
    assert_eq!(timestamp_text(Err((u64::MAX, 5))), "0000-01-01T00:00:00.000Z");
}

#[test]
fn writable_time_keeps_four_digit_years() {
    assert_eq!(writable_time(Ok((42, 7))), (42, 7));
    assert_eq!(writable_time(Err((0, 1))), (-1, 999_999_999));
    assert_eq!(writable_time(Ok((u64::MAX, 0))), (253_402_300_799, 999_999_999));
    assert_eq!(writable_time(Err((u64::MAX, 0))), (-62_167_219_200, 0));
    assert_eq!(writable_time(Ok((300_000_000_000, 1))), (253_402_300_799, 999_999_999));
}
