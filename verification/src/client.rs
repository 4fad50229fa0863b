//! The telemetry client record and the decisions made around it.
//!
//! Events used to leave the machine twice (a product-events endpoint and
//! Mixpanel); both send paths are gone. What stays is the mode gate that
//! decides which events may fire, the client record whose fields local logs
//! stamp into every event, and the profile-sync gate.
//!
//! The process keeps at most one installed client. This module takes that slot
//! as an explicit `Option<TelemetryClient>`; the program that embeds the
//! library owns the one process-wide slot and its lock.

use vstd::prelude::*;
use vstd::string::StringExecFns;

use crate::config::{DeploymentKey, TelemetryConfig, TelemetryMode};
use crate::http::OriginClientInfo;
use crate::metadata::{insert_text, metadata_entries, Metadata};
use crate::tier::{normalize_tier, tier_key};

verus! {

#[verifier::external_type_specification]
#[verifier::external_body]
pub struct ExReqwestClient(reqwest::Client);

/// The text of an optional string.
pub open spec fn text_of(o: Option<String>) -> Option<Seq<char>> {
    match o {
        Some(s) => Some(s@),
        None => None,
    }
}

/// What a [`TelemetryClient`] holds, as plain values.
pub struct TelemetryClientView {
    pub mode: TelemetryMode,
    pub user_id: Option<Seq<char>>,
    pub team_id: Option<Seq<char>>,
    pub deployment_id: Option<Seq<char>>,
    pub shell_version: Seq<char>,
    pub client_type: Option<Seq<char>>,
    pub client_version: Option<Seq<char>>,
    pub subscription_tier: Option<Seq<char>>,
}

/// The installed telemetry client: the chosen mode and the identity fields
/// that are stamped into every event.
#[derive(Clone)]
pub struct TelemetryClient {
    mode: TelemetryMode,
    user_id: Option<String>,
    team_id: Option<String>,
    deployment_id: Option<String>,
    shell_version: String,
    client_type: Option<String>,
    client_version: Option<String>,
    subscription_tier: Option<String>,
}

impl View for TelemetryClient {
    type V = TelemetryClientView;

    closed spec fn view(&self) -> TelemetryClientView {
        TelemetryClientView {
            mode: self.mode,
            user_id: text_of(self.user_id),
            team_id: text_of(self.team_id),
            deployment_id: text_of(self.deployment_id),
            shell_version: self.shell_version@,
            client_type: text_of(self.client_type),
            client_version: text_of(self.client_version),
            subscription_tier: text_of(self.subscription_tier),
        }
    }
}

/// The deployment id that events carry: the id derived from the key, unless
/// the key is empty or absent.
pub open spec fn deployment_id_of(deployment_key: Option<DeploymentKey>) -> Option<Seq<char>> {
    match deployment_key {
        Some(d) => if d.key@.len() == 0 {
            None
        } else {
            Some(d.id@)
        },
        None => None,
    }
}

/// The client type: the product of the origin client, if any.
pub open spec fn client_type_of(origin_client: Option<OriginClientInfo>) -> Option<Seq<char>> {
    match origin_client {
        Some(o) => Some(o.product@),
        None => None,
    }
}

/// The client version: the version the origin client reported, if any.
pub open spec fn client_version_of(origin_client: Option<OriginClientInfo>) -> Option<
    Seq<char>,
> {
    match origin_client {
        Some(o) => text_of(o.version),
        None => None,
    }
}

/// The subscription tier as events carry it: the tier's normalised key.
pub open spec fn tier_of(subscription_tier: Option<String>) -> Option<Seq<char>> {
    match subscription_tier {
        Some(t) => Some(tier_key(t@)),
        None => None,
    }
}

/// The client that [`TelemetryClient::from_config`] builds from its arguments.
pub open spec fn client_view(
    mode: TelemetryMode,
    user_id: Option<String>,
    team_id: Option<String>,
    deployment_key: Option<DeploymentKey>,
    origin_client: Option<OriginClientInfo>,
    shell_version: String,
    subscription_tier: Option<String>,
) -> TelemetryClientView {
    TelemetryClientView {
        mode,
        user_id: text_of(user_id),
        team_id: text_of(team_id),
        deployment_id: deployment_id_of(deployment_key),
        shell_version: shell_version@,
        client_type: client_type_of(origin_client),
        client_version: client_version_of(origin_client),
        subscription_tier: tier_of(subscription_tier),
    }
}

impl TelemetryClient {
    /// Builds the client record.
    ///
    /// `config`'s analytics fields are ignored (no events endpoint and no
    /// Mixpanel client exist), and so is `_http_client`; both parameters stay
    /// so that callers are unchanged. An empty deployment key counts as none.
    /// The subscription tier is stored as its normalised key.
    pub fn from_config(
        config: TelemetryConfig,
        mode: TelemetryMode,
        user_id: Option<String>,
        team_id: Option<String>,
        deployment_key: Option<DeploymentKey>,
        origin_client: Option<OriginClientInfo>,
        shell_version: String,
        subscription_tier: Option<String>,
        _http_client: reqwest::Client,
    ) -> (client: Self)
        ensures
            client@ == client_view(
                mode,
                user_id,
                team_id,
                deployment_key,
                origin_client,
                shell_version,
                subscription_tier,
            ),
            client@.mode == mode,
            client@.user_id == text_of(user_id),
            client@.team_id == text_of(team_id),
            client@.deployment_id == (match deployment_key {
                Some(d) => if d.key@.len() == 0 {
                    None
                } else {
                    Some(d.id@)
                },
                None => None,
            }),
            client@.shell_version == shell_version@,
            client@.client_type == (match origin_client {
                Some(o) => Some(o.product@),
                None => None,
            }),
            client@.client_version == (match origin_client {
                Some(o) => text_of(o.version),
                None => None,
            }),
            client@.subscription_tier == (match subscription_tier {
                Some(t) => Some(tier_key(t@)),
                None => None,
            }),
    {
        let _ = config;
        let deployment_id = match deployment_key {
            Some(d) => if d.key.as_str().is_empty() {
                None
            } else {
                Some(d.id)
            },
            None => None,
        };
        let (client_type, client_version) = match origin_client {
            Some(o) => (Some(o.product), o.version),
            None => (None, None),
        };
        let subscription_tier = match subscription_tier {
            Some(t) => Some(normalize_tier(t.as_str())),
            None => None,
        };
        TelemetryClient {
            mode,
            user_id,
            team_id,
            deployment_id,
            shell_version,
            client_type,
            client_version,
            subscription_tier,
        }
    }
}

impl TelemetryClient {
    /// The mode the client was installed with.
    pub fn mode(&self) -> (mode: TelemetryMode)
        ensures
            mode == self@.mode,
    {
        self.mode
    }

    /// The authenticated user id, if any.
    pub fn user_id(&self) -> (user_id: &Option<String>)
        ensures
            text_of(*user_id) == self@.user_id,
    {
        &self.user_id
    }

    /// The team id, if any.
    pub fn team_id(&self) -> (team_id: &Option<String>)
        ensures
            text_of(*team_id) == self@.team_id,
    {
        &self.team_id
    }

    /// The deployment id derived from a non-empty deployment key, if any.
    pub fn deployment_id(&self) -> (deployment_id: &Option<String>)
        ensures
            text_of(*deployment_id) == self@.deployment_id,
    {
        &self.deployment_id
    }

    /// The shell version stamped into every event.
    pub fn shell_version(&self) -> (shell_version: &String)
        ensures
            shell_version@ == self@.shell_version,
    {
        &self.shell_version
    }

    /// The product of the origin client, if any.
    pub fn client_type(&self) -> (client_type: &Option<String>)
        ensures
            text_of(*client_type) == self@.client_type,
    {
        &self.client_type
    }

    /// The version of the origin client, if any.
    pub fn client_version(&self) -> (client_version: &Option<String>)
        ensures
            text_of(*client_version) == self@.client_version,
    {
        &self.client_version
    }

    /// The normalised subscription tier, if any.
    pub fn subscription_tier(&self) -> (subscription_tier: &Option<String>)
        ensures
            text_of(*subscription_tier) == self@.subscription_tier,
    {
        &self.subscription_tier
    }
}

/// The name of a mode as its derived `Debug` form writes it.
pub open spec fn mode_name(mode: TelemetryMode) -> Seq<char> {
    match mode {
        TelemetryMode::Disabled => "Disabled"@,
        TelemetryMode::SessionMetrics => "SessionMetrics"@,
        TelemetryMode::Enabled => "Enabled"@,
    }
}

impl TelemetryClient {
    /// The client's debug form. Only the mode is shown: no endpoint or key is
    /// stored, and the identity fields stay out of logs.
    pub fn debug_text(&self) -> (text: String)
        ensures
            text@ == "TelemetryClient { mode: "@ + mode_name(self@.mode) + " }"@,
    {
        let name = match self.mode {
            TelemetryMode::Disabled => "Disabled",
            TelemetryMode::SessionMetrics => "SessionMetrics",
            TelemetryMode::Enabled => "Enabled",
        };
        "TelemetryClient { mode: ".to_owned().concat(name).concat(" }")
    }
}

/// The client record keeps what it is given: the mode, user, team and shell
/// version as they are; the deployment id exactly when a non-empty key comes
/// with it, whatever the mode; the origin client's product and version; the
/// tier's normalised key.
pub proof fn lemma_client_view_keeps_its_arguments(
    mode: TelemetryMode,
    user_id: Option<String>,
    team_id: Option<String>,
    deployment_key: Option<DeploymentKey>,
    origin_client: Option<OriginClientInfo>,
    shell_version: String,
    subscription_tier: Option<String>,
)
    ensures
        ({
            let c = client_view(
                mode,
                user_id,
                team_id,
                deployment_key,
                origin_client,
                shell_version,
                subscription_tier,
            );
            &&& c.mode == mode
            &&& c.user_id == text_of(user_id)
            &&& c.team_id == text_of(team_id)
            &&& team_id is None ==> c.team_id is None
            &&& (deployment_key matches Some(d) ==> (d.key@.len() > 0 ==> c.deployment_id == Some(
                d.id@,
            )) && (d.key@.len() == 0 ==> c.deployment_id is None))
            &&& deployment_key is None ==> c.deployment_id is None
            &&& c.shell_version == shell_version@
            &&& (origin_client matches Some(o) ==> c.client_type == Some(o.product@)
                && c.client_version == text_of(o.version))
            &&& origin_client is None ==> c.client_type is None && c.client_version is None
            &&& (subscription_tier matches Some(t) ==> c.subscription_tier == Some(tier_key(t@)))
            &&& subscription_tier is None ==> c.subscription_tier is None
        }),
{
}

/// The deployment id a client records does not depend on the mode.
pub proof fn lemma_deployment_id_independent_of_mode(
    mode_a: TelemetryMode,
    mode_b: TelemetryMode,
    user_id: Option<String>,
    team_id: Option<String>,
    deployment_key: Option<DeploymentKey>,
    origin_client: Option<OriginClientInfo>,
    shell_version: String,
    subscription_tier: Option<String>,
)
    ensures
        client_view(
            mode_a,
            user_id,
            team_id,
            deployment_key,
            origin_client,
            shell_version,
            subscription_tier,
        ).deployment_id == client_view(
            mode_b,
            user_id,
            team_id,
            deployment_key,
            origin_client,
            shell_version,
            subscription_tier,
        ).deployment_id,
{
}

/// The installed client, as plain values.
pub open spec fn installed_view(installed: Option<TelemetryClient>) -> Option<TelemetryClientView> {
    match installed {
        Some(c) => Some(c@),
        None => None,
    }
}

/// Product analytics may fire: a client is installed in `Enabled` mode.
pub open spec fn analytics_on(installed: Option<TelemetryClientView>) -> bool {
    installed matches Some(c) && c.mode is Enabled
}

/// Lifecycle (session) events may fire: a client is installed in `Enabled`
/// or `SessionMetrics` mode.
pub open spec fn session_metrics_on(installed: Option<TelemetryClientView>) -> bool {
    installed matches Some(c) && (c.mode is Enabled || c.mode is SessionMetrics)
}

/// The slot after [`init`] with a client built as `client`: no client in
/// `Disabled` mode, that client otherwise.
pub open spec fn installed_after_init(client: TelemetryClientView) -> Option<TelemetryClientView> {
    if client.mode is Disabled {
        None
    } else {
        Some(client)
    }
}

/// The slot after [`init_if_needed`]: unchanged in `Disabled` mode or when a
/// client is already installed, `client` otherwise.
pub open spec fn installed_after_init_if_needed(
    installed: Option<TelemetryClientView>,
    client: TelemetryClientView,
) -> Option<TelemetryClientView> {
    if client.mode is Disabled || installed is Some {
        installed
    } else {
        Some(client)
    }
}

/// Returns `true` when telemetry mode is `Enabled`.
/// Used by `log_event`: product analytics events only fire in `Enabled` mode.
pub fn is_enabled(installed: &Option<TelemetryClient>) -> (enabled: bool)
    ensures
        enabled == analytics_on(installed_view(*installed)),
{
    match installed {
        Some(c) => c.mode.is_enabled(),
        None => false,
    }
}

/// Returns `true` when telemetry mode is `Enabled` or `SessionMetrics`.
/// Used by `session_metrics`: lifecycle events fire in both modes.
pub fn is_session_metrics_enabled(installed: &Option<TelemetryClient>) -> (enabled: bool)
    ensures
        enabled == session_metrics_on(installed_view(*installed)),
{
    match installed {
        Some(c) => c.mode.session_metrics_enabled(),
        None => false,
    }
}

/// The profile-sync gate, consulted once per init.
///
/// Returns whether a profile sync is due: only with a client installed in
/// `Enabled` mode. `SessionMetrics` mode may emit lifecycle events but never
/// writes a user profile. No profile is written anywhere in this build; the
/// gate is all that is left of the sync.
pub fn sync_profile(installed: &Option<TelemetryClient>) -> (due: bool)
    ensures
        due == analytics_on(installed_view(*installed)),
{
    match installed {
        Some(c) => c.mode.is_enabled(),
        None => false,
    }
}

/// Installs the telemetry client. Safe to call multiple times: the slot after
/// the call depends on the arguments alone.
///
/// - `Disabled`: no client
/// - `SessionMetrics`: client active (only session metrics events fire)
/// - `Enabled`: client active (all events fire)
///
/// Returns what the profile-sync gate that follows decides.
pub fn init(
    installed: &mut Option<TelemetryClient>,
    config: TelemetryConfig,
    mode: TelemetryMode,
    user_id: Option<String>,
    team_id: Option<String>,
    deployment_key: Option<DeploymentKey>,
    origin_client: Option<OriginClientInfo>,
    shell_version: String,
    subscription_tier: Option<String>,
    http_client: reqwest::Client,
) -> (profile_sync_due: bool)
    ensures
        installed_view(*final(installed)) == installed_after_init(
            client_view(
                mode,
                user_id,
                team_id,
                deployment_key,
                origin_client,
                shell_version,
                subscription_tier,
            ),
        ),
        profile_sync_due == analytics_on(installed_view(*final(installed))),
        mode is Disabled ==> *final(installed) is None,
        !(mode is Disabled) ==> installed_view(*final(installed)) == Some(
            client_view(
                mode,
                user_id,
                team_id,
                deployment_key,
                origin_client,
                shell_version,
                subscription_tier,
            ),
        ),
        profile_sync_due == (mode is Enabled),
{
    if mode.is_disabled() {
        *installed = None;
    } else {
        *installed = Some(
            TelemetryClient::from_config(
                config,
                mode,
                user_id,
                team_id,
                deployment_key,
                origin_client,
                shell_version,
                subscription_tier,
                http_client,
            ),
        );
    }
    sync_profile(installed)
}

/// Installs the telemetry client if none was installed at startup (e.g.
/// because auth was not yet available). No-op when a client is already
/// installed, and in `Disabled` mode, so safe to call unconditionally after
/// auth succeeds.
///
/// Returns whether a profile sync is due: only when a client was installed
/// here, in `Enabled` mode.
pub fn init_if_needed(
    installed: &mut Option<TelemetryClient>,
    config: TelemetryConfig,
    mode: TelemetryMode,
    user_id: Option<String>,
    team_id: Option<String>,
    deployment_key: Option<DeploymentKey>,
    origin_client: Option<OriginClientInfo>,
    shell_version: String,
    subscription_tier: Option<String>,
    http_client: reqwest::Client,
) -> (profile_sync_due: bool)
    ensures
        installed_view(*final(installed)) == installed_after_init_if_needed(
            installed_view(*old(installed)),
            client_view(
                mode,
                user_id,
                team_id,
                deployment_key,
                origin_client,
                shell_version,
                subscription_tier,
            ),
        ),
        mode is Disabled || *old(installed) is Some ==> *final(installed) == *old(installed),
        profile_sync_due == (*old(installed) is None && analytics_on(
            installed_view(*final(installed)),
        )),
        *old(installed) is None && !(mode is Disabled) ==> installed_view(*final(installed))
            == Some(
            client_view(
                mode,
                user_id,
                team_id,
                deployment_key,
                origin_client,
                shell_version,
                subscription_tier,
            ),
        ),
        profile_sync_due == (*old(installed) is None && mode is Enabled),
{
    if mode.is_disabled() {
        return false;
    }
    if installed.is_none() {
        *installed = Some(
            TelemetryClient::from_config(
                config,
                mode,
                user_id,
                team_id,
                deployment_key,
                origin_client,
                shell_version,
                subscription_tier,
                http_client,
            ),
        );
        sync_profile(installed)
    } else {
        false
    }
}

/// An event as the telemetry funnel assembles it: the user it is attributed
/// to and its properties. Nothing sends it; local logs may read it.
pub struct TrackedEvent {
    pub user_id: String,
    pub metadata: Metadata,
}

/// The user an event is attributed to: the authenticated user, else the agent.
pub open spec fn event_user_id(client: TelemetryClientView, agent_id: Seq<char>) -> Seq<char> {
    match client.user_id {
        Some(u) => u,
        None => agent_id,
    }
}

/// `properties` with `key` set to `value` when there is a value.
pub open spec fn with_optional_text(
    properties: Map<Seq<char>, (bool, Seq<char>)>,
    key: Seq<char>,
    value: Option<Seq<char>>,
) -> Map<Seq<char>, (bool, Seq<char>)> {
    match value {
        Some(v) => properties.insert(key, (true, v)),
        None => properties,
    }
}

/// The caller's properties with the client's identity stamped in, in this
/// order: `agent_id`, `team_id`, `deployment_id`, `shell_version`,
/// `client_type`, `client_version`, `subscription_tier` (each optional field
/// only when the client has it). A stamped key replaces the caller's value.
pub open spec fn stamped_properties(
    properties: Map<Seq<char>, (bool, Seq<char>)>,
    client: TelemetryClientView,
    agent_id: Seq<char>,
) -> Map<Seq<char>, (bool, Seq<char>)> {
    let p = properties.insert("agent_id"@, (true, agent_id));
    let p = with_optional_text(p, "team_id"@, client.team_id);
    let p = with_optional_text(p, "deployment_id"@, client.deployment_id);
    let p = p.insert("shell_version"@, (true, client.shell_version));
    let p = with_optional_text(p, "client_type"@, client.client_type);
    let p = with_optional_text(p, "client_version"@, client.client_version);
    with_optional_text(p, "subscription_tier"@, client.subscription_tier)
}

/// A stamped property: `after` maps `key` to the text `value` when there is
/// one, and otherwise agrees with `before` on `key`.
pub open spec fn stamped_field(
    before: Map<Seq<char>, (bool, Seq<char>)>,
    after: Map<Seq<char>, (bool, Seq<char>)>,
    key: Seq<char>,
    value: Option<Seq<char>>,
) -> bool {
    match value {
        Some(v) => after.contains_key(key) && after[key] == (true, v),
        None => after.contains_key(key) == before.contains_key(key) && (before.contains_key(key)
            ==> after[key] == before[key]),
    }
}

/// `after` carries the identity of `client` over `before`: `agent_id` and
/// `shell_version` always, each optional identity field whenever the client
/// has it, whatever the client's mode; a field the client lacks keeps the
/// caller's value.
pub open spec fn stamps_identity(
    before: Map<Seq<char>, (bool, Seq<char>)>,
    after: Map<Seq<char>, (bool, Seq<char>)>,
    client: TelemetryClientView,
    agent_id: Seq<char>,
) -> bool {
    &&& stamped_field(before, after, "agent_id"@, Some(agent_id))
    &&& stamped_field(before, after, "shell_version"@, Some(client.shell_version))
    &&& stamped_field(before, after, "team_id"@, client.team_id)
    &&& stamped_field(before, after, "deployment_id"@, client.deployment_id)
    &&& stamped_field(before, after, "client_type"@, client.client_type)
    &&& stamped_field(before, after, "client_version"@, client.client_version)
    &&& stamped_field(before, after, "subscription_tier"@, client.subscription_tier)
}

/// The seven stamped keys are distinct.
proof fn lemma_stamped_keys_distinct()
    ensures
        "agent_id"@ != "team_id"@,
        "agent_id"@ != "deployment_id"@,
        "agent_id"@ != "shell_version"@,
        "agent_id"@ != "client_type"@,
        "agent_id"@ != "client_version"@,
        "agent_id"@ != "subscription_tier"@,
        "team_id"@ != "deployment_id"@,
        "team_id"@ != "shell_version"@,
        "team_id"@ != "client_type"@,
        "team_id"@ != "client_version"@,
        "team_id"@ != "subscription_tier"@,
        "deployment_id"@ != "shell_version"@,
        "deployment_id"@ != "client_type"@,
        "deployment_id"@ != "client_version"@,
        "deployment_id"@ != "subscription_tier"@,
        "shell_version"@ != "client_type"@,
        "shell_version"@ != "client_version"@,
        "shell_version"@ != "subscription_tier"@,
        "client_type"@ != "client_version"@,
        "client_type"@ != "subscription_tier"@,
        "client_version"@ != "subscription_tier"@,
{
    reveal_strlit("agent_id");
    reveal_strlit("team_id");
    reveal_strlit("deployment_id");
    reveal_strlit("shell_version");
    reveal_strlit("client_type");
    reveal_strlit("client_version");
    reveal_strlit("subscription_tier");
    assert("agent_id"@[0] != "team_id"@[0]);
    assert("agent_id"@[0] != "deployment_id"@[0]);
    assert("agent_id"@[0] != "shell_version"@[0]);
    assert("agent_id"@[0] != "client_type"@[0]);
    assert("agent_id"@[0] != "client_version"@[0]);
    assert("agent_id"@[0] != "subscription_tier"@[0]);
    assert("team_id"@[0] != "deployment_id"@[0]);
    assert("team_id"@[0] != "shell_version"@[0]);
    assert("team_id"@[0] != "client_type"@[0]);
    assert("team_id"@[0] != "client_version"@[0]);
    assert("team_id"@[0] != "subscription_tier"@[0]);
    assert("deployment_id"@[0] != "shell_version"@[0]);
    assert("deployment_id"@[0] != "client_type"@[0]);
    assert("deployment_id"@[0] != "client_version"@[0]);
    assert("deployment_id"@[0] != "subscription_tier"@[0]);
    assert("shell_version"@[0] != "client_type"@[0]);
    assert("shell_version"@[0] != "client_version"@[0]);
    assert("shell_version"@[1] != "subscription_tier"@[1]);
    assert("client_type"@[7] != "client_version"@[7]);
    assert("client_type"@[0] != "subscription_tier"@[0]);
    assert("client_version"@[0] != "subscription_tier"@[0]);
}

/// The funnel stamps a client's whole identity, whatever its mode: the agent
/// id and shell version always, and every optional identity field the client
/// has (team, deployment, client type and version, subscription tier); a
/// field the client lacks leaves the caller's property as it was.
pub proof fn lemma_stamped_properties_carry_identity(
    properties: Map<Seq<char>, (bool, Seq<char>)>,
    client: TelemetryClientView,
    agent_id: Seq<char>,
)
    ensures
        stamps_identity(
            properties,
            stamped_properties(properties, client, agent_id),
            client,
            agent_id,
        ),
{
    lemma_stamped_keys_distinct();
}

/// Core telemetry funnel: assembles the event that every caller emits.
///
/// Without an installed client there is no event. Otherwise the properties
/// get the client's identity stamped in and the event is attributed to the
/// authenticated user, or to `agent_id` when there is none. Nothing is sent.
pub fn track(installed: &Option<TelemetryClient>, agent_id: &str, metadata: Metadata) -> (event:
    Option<TrackedEvent>)
    ensures
        installed is None ==> event is None,
        installed matches Some(c) ==> event matches Some(e) && e.user_id@ == event_user_id(
            c@,
            agent_id@,
        ) && metadata_entries(e.metadata) == stamped_properties(
            metadata_entries(metadata),
            c@,
            agent_id@,
        ),
        installed matches Some(c) ==> event matches Some(e) && stamps_identity(
            metadata_entries(metadata),
            metadata_entries(e.metadata),
            c@,
            agent_id@,
        ),
{
    match installed {
        None => None,
        Some(client) => {
            let ghost metadata_before = metadata;
            let mut metadata = metadata;
            insert_text(&mut metadata, "agent_id", agent_id);
            if let Some(team_id) = &client.team_id {
                insert_text(&mut metadata, "team_id", team_id.as_str());
            }
            if let Some(deployment_id) = &client.deployment_id {
                insert_text(&mut metadata, "deployment_id", deployment_id.as_str());
            }
            insert_text(&mut metadata, "shell_version", client.shell_version.as_str());
            if let Some(client_type) = &client.client_type {
                insert_text(&mut metadata, "client_type", client_type.as_str());
            }
            if let Some(client_version) = &client.client_version {
                insert_text(&mut metadata, "client_version", client_version.as_str());
            }
            if let Some(subscription_tier) = &client.subscription_tier {
                insert_text(&mut metadata, "subscription_tier", subscription_tier.as_str());
            }
            let user_id = match &client.user_id {
                Some(u) => u.clone(),
                None => agent_id.to_owned(),
            };
            proof {
                lemma_stamped_properties_carry_identity(
                    metadata_entries(metadata_before),
                    client@,
                    agent_id@,
                );
            }
            Some(TrackedEvent { user_id, metadata })
        },
    }
}

/// Product analytics imply session metrics: whenever analytics events may
/// fire, lifecycle events may fire too.
pub proof fn lemma_analytics_implies_session_metrics(installed: Option<TelemetryClientView>)
    ensures
        analytics_on(installed) ==> session_metrics_on(installed),
{
}

/// What [`init`] leaves behind, mode by mode: `Disabled` installs no client;
/// `SessionMetrics` installs one for lifecycle events only; `Enabled` installs
/// one for all events. A profile sync is due only in `Enabled` mode.
pub proof fn lemma_init_by_mode(client: TelemetryClientView)
    ensures
        installed_after_init(client) is None <==> client.mode is Disabled,
        analytics_on(installed_after_init(client)) <==> client.mode is Enabled,
        session_metrics_on(installed_after_init(client)) <==> (client.mode is Enabled
            || client.mode is SessionMetrics),
{
}

/// Outside `Disabled` mode, [`init`] installs exactly the client it built,
/// in `SessionMetrics` as in `Enabled` mode, and so does [`init_if_needed`] on
/// an empty slot; in `Disabled` mode neither installs anything.
pub proof fn lemma_init_installs_the_built_client(client: TelemetryClientView)
    ensures
        !(client.mode is Disabled) ==> installed_after_init(client) == Some(client),
        !(client.mode is Disabled) ==> installed_after_init_if_needed(None, client) == Some(
            client,
        ),
        client.mode is Disabled ==> installed_after_init(client) is None,
        client.mode is Disabled ==> installed_after_init_if_needed(None, client) is None,
{
}

/// [`init_if_needed`] on an empty slot does what [`init`] does.
pub proof fn lemma_init_if_needed_on_empty_slot_is_init(client: TelemetryClientView)
    ensures
        installed_after_init_if_needed(None, client) == installed_after_init(client),
{
}

/// [`init_if_needed`] never replaces an installed client, whatever it is
/// called with.
pub proof fn lemma_init_if_needed_keeps_installed_client(
    installed: Option<TelemetryClientView>,
    client: TelemetryClientView,
)
    requires
        installed is Some,
    ensures
        installed_after_init_if_needed(installed, client) == installed,
{
}

/// Once [`init`] has installed a client, a later [`init_if_needed`] changes
/// nothing.
pub proof fn lemma_init_if_needed_after_init_is_noop(
    first: TelemetryClientView,
    second: TelemetryClientView,
)
    requires
        !(first.mode is Disabled),
    ensures
        installed_after_init_if_needed(installed_after_init(first), second)
            == installed_after_init(first),
{
}

/// The subscription tier that a client carries is always a normalised key:
/// no ASCII capital and no space.
pub proof fn lemma_client_tier_is_snake_key(subscription_tier: Option<String>)
    ensures
        tier_of(subscription_tier) matches Some(t) ==> crate::tier::is_snake_key(t),
{
    if let Some(t) = subscription_tier {
        crate::tier::lemma_tier_key_is_snake_key(t@);
    }
}

/// Every assembled event carries the agent id and the shell version.
pub proof fn lemma_stamped_identity(
    properties: Map<Seq<char>, (bool, Seq<char>)>,
    client: TelemetryClientView,
    agent_id: Seq<char>,
)
    ensures
        stamped_properties(properties, client, agent_id)["agent_id"@] == (true, agent_id),
        stamped_properties(properties, client, agent_id)["shell_version"@] == (
            true,
            client.shell_version,
        ),
        stamped_properties(properties, client, agent_id).contains_key("agent_id"@),
        stamped_properties(properties, client, agent_id).contains_key("shell_version"@),
{
    reveal_strlit("agent_id");
    reveal_strlit("team_id");
    reveal_strlit("deployment_id");
    reveal_strlit("shell_version");
    reveal_strlit("client_type");
    reveal_strlit("client_version");
    reveal_strlit("subscription_tier");
    assert("agent_id"@ != "team_id"@) by { assert("agent_id"@[0] != "team_id"@[0]); }
    assert("agent_id"@ != "deployment_id"@) by { assert("agent_id"@[0] != "deployment_id"@[0]); }
    assert("agent_id"@ != "shell_version"@) by { assert("agent_id"@[0] != "shell_version"@[0]); }
    assert("agent_id"@ != "client_type"@) by { assert("agent_id"@[0] != "client_type"@[0]); }
    assert("agent_id"@ != "client_version"@) by { assert("agent_id"@[0] != "client_version"@[0]); }
    assert("agent_id"@ != "subscription_tier"@) by {
        assert("agent_id"@[0] != "subscription_tier"@[0]);
    }
    assert("shell_version"@ != "client_type"@) by { assert("shell_version"@[0] != "client_type"@[0]); }
    assert("shell_version"@ != "client_version"@) by {
        assert("shell_version"@[0] != "client_version"@[0]);
    }
    assert("shell_version"@ != "subscription_tier"@) by {
        assert("shell_version"@[1] != "subscription_tier"@[1]);
    }
}

/// The funnel keeps every caller property whose key it does not stamp.
pub proof fn lemma_stamping_keeps_other_properties(
    properties: Map<Seq<char>, (bool, Seq<char>)>,
    client: TelemetryClientView,
    agent_id: Seq<char>,
    key: Seq<char>,
)
    requires
        key != "agent_id"@,
        key != "team_id"@,
        key != "deployment_id"@,
        key != "shell_version"@,
        key != "client_type"@,
        key != "client_version"@,
        key != "subscription_tier"@,
    ensures
        stamped_properties(properties, client, agent_id).contains_key(key)
            == properties.contains_key(key),
        properties.contains_key(key) ==> stamped_properties(properties, client, agent_id)[key]
            == properties[key],
{
}

/// Where and when an event happens: the user's country and language and a
/// UTC timestamp.
pub struct UserContext {
    pub country: String,
    pub language: String,
    pub timestamp: String,
}

/// A language preference as text: its country code and its language tag.
pub struct Locale {
    pub country: String,
    pub language: String,
}

/// The user's preferred languages as text, most preferred first
/// (`whoami::langs`, each converted with `Language::country` and its
/// `Display` form), or `None` when they cannot be read.
///
/// whoami hands out every preference as a bare language code whose country is
/// "any dialect", which it writes as "**". The codes themselves come from the
/// environment and are not stated.
#[verifier::external_body]
fn preferred_locales() -> (preferred: Option<Vec<Locale>>)
    ensures
        preferred matches Some(locales) ==> forall|i: int|
            0 <= i < locales.len() ==> (#[trigger] locales@[i]).country@ == "**"@,
{
    whoami::langs().ok().map(
        |langs| {
            langs.map(
                |lang| Locale { country: lang.country().to_string(), language: lang.to_string() },
            ).collect()
        },
    )
}

/// The fallback preference, English of any dialect
/// (`whoami::Language::En(whoami::Country::Any)`), as text: whoami writes its
/// country as "**" and the language as "en".
#[verifier::external_body]
fn fallback_locale() -> (locale: Locale)
    ensures
        locale.country@ == "**"@,
        locale.language@ == "en"@,
{
    let lang = whoami::Language::En(whoami::Country::Any);
    Locale { country: lang.country().to_string(), language: lang.to_string() }
}

/// The most preferred of the preferences that could be read: the first one,
/// or none when they could not be read or there are none.
pub fn first_locale(preferred: Option<Vec<Locale>>) -> (first: Option<Locale>)
    ensures
        first == (match preferred {
            Some(locales) => if locales.len() > 0 {
                Some(locales@[0])
            } else {
                None
            },
            None => None,
        }),
{
    match preferred {
        Some(locales) => if locales.len() > 0 {
            let mut locales = locales;
            Some(locales.remove(0))
        } else {
            None
        },
        None => None,
    }
}

/// The user's most preferred language as text, if one can be read. Its
/// country is always "**".
fn first_preferred_locale() -> (first: Option<Locale>)
    ensures
        first matches Some(l) ==> l.country@ == "**"@,
{
    first_locale(preferred_locales())
}

/// A reading of the system clock: how far it stands from the Unix epoch, as
/// whole seconds and nanoseconds, `Ok` at or after the epoch and `Err` before.
pub type ClockReading = Result<(u64, u32), (u64, u32)>;

#[verifier::external_type_specification]
#[verifier::external_body]
pub struct ExSystemTime(std::time::SystemTime);

/// The system clock now (`SystemTime::now`). Nothing is stated of it.
#[verifier::external_body]
fn clock_now() -> std::time::SystemTime {
    std::time::SystemTime::now()
}

/// How far `time` stands from the Unix epoch (`SystemTime::duration_since`
/// with `UNIX_EPOCH`, the duration, or the error's `duration()`, split by
/// `as_secs` and `subsec_nanos`). The nanoseconds are below one billion.
#[verifier::external_body]
fn since_epoch(time: &std::time::SystemTime) -> (reading: ClockReading)
    ensures
        match reading {
            Ok(d) => d.1 < 1_000_000_000,
            Err(d) => d.1 < 1_000_000_000,
        },
{
    match time.duration_since(std::time::UNIX_EPOCH) {
        Ok(d) => Ok((d.as_secs(), d.subsec_nanos())),
        Err(e) => Err((e.duration().as_secs(), e.duration().subsec_nanos())),
    }
}

/// The signed number of nanoseconds a clock reading stands from the epoch.
pub open spec fn reading_nanos(reading: ClockReading) -> int {
    match reading {
        Ok(d) => d.0 * 1_000_000_000 + d.1,
        Err(d) => -(d.0 * 1_000_000_000 + d.1),
    }
}

/// Unix time of a reading: whole seconds rounded down and the nanoseconds past
/// them, or `None` when those seconds do not fit an `i64`.
pub open spec fn unix_time_of(reading: ClockReading) -> Option<(i64, u32)> {
    let secs = reading_nanos(reading) / 1_000_000_000;
    if i64::MIN <= secs && secs <= i64::MAX {
        Some((secs as i64, (reading_nanos(reading) % 1_000_000_000) as u32))
    } else {
        None
    }
}

/// The Unix time of a clock reading, as [`unix_time_of`] says.
pub fn unix_time(reading: ClockReading) -> (time: Option<(i64, u32)>)
    ensures
        time == unix_time_of(reading),
{
    let billion: u128 = 1_000_000_000;
    match reading {
        Ok((secs, nanos)) => {
            let total: u128 = (secs as u128) * billion + (nanos as u128);
            let whole: u128 = total / billion;
            let rest: u128 = total % billion;
            if whole <= 9_223_372_036_854_775_807u128 {
                Some((whole as i64, rest as u32))
            } else {
                None
            }
        },
        Err((secs, nanos)) => {
            let total: u128 = (secs as u128) * billion + (nanos as u128);
            let whole: u128 = total / billion;
            let rest: u128 = total % billion;
            if rest == 0 {
                if whole <= 9_223_372_036_854_775_808u128 {
                    let neg: i128 = 0i128 - (whole as i128);
                    Some((neg as i64, 0u32))
                } else {
                    None
                }
            } else {
                if whole + 1 <= 9_223_372_036_854_775_808u128 {
                    let neg: i128 = 0i128 - (whole as i128) - 1;
                    Some((neg as i64, (billion - rest) as u32))
                } else {
                    None
                }
            }
        },
    }
}

/// Unix seconds of 0000-01-01T00:00:00Z, the first instant with a four-digit year.
pub const FIRST_FOUR_DIGIT_YEAR_SECS: i64 = -62_167_219_200;

/// Unix seconds of 9999-12-31T23:59:59Z, the last second with a four-digit year.
pub const LAST_FOUR_DIGIT_YEAR_SECS: i64 = 253_402_300_799;

/// `c` is an ASCII digit.
pub open spec fn is_ascii_digit(c: char) -> bool {
    48 <= (c as u32) && (c as u32) <= 57
}

/// `s` has the shape `YYYY-MM-DDTHH:MM:SS.mmmZ`: 24 characters, digits
/// except for the separators.
pub open spec fn is_rfc3339_utc_millis(s: Seq<char>) -> bool {
    &&& s.len() == 24
    &&& s[4] == '-' && s[7] == '-' && s[10] == 'T' && s[13] == ':' && s[16] == ':'
    &&& s[19] == '.' && s[23] == 'Z'
    &&& forall|i: int|
        0 <= i < 24 && i != 4 && i != 7 && i != 10 && i != 13 && i != 16 && i != 19 && i != 23
            ==> is_ascii_digit(#[trigger] s[i])
}

/// The RFC 3339 text, in UTC with milliseconds and `Z`, that chrono writes for
/// the instant `secs` seconds and `nanos` nanoseconds after the Unix epoch, or
/// `None` when chrono cannot represent that instant.
pub uninterp spec fn rfc3339_utc_millis_text(secs: i64, nanos: u32) -> Option<Seq<char>>;

/// chrono's `DateTime::from_timestamp`, written by `to_rfc3339_opts` with
/// milliseconds and `Z` for UTC.
///
/// chrono represents every instant of years 0 to 9999 with fewer than a
/// billion nanoseconds, and writes it as `YYYY-MM-DDTHH:MM:SS.mmmZ`.
#[verifier::external_body]
fn rfc3339_utc_millis(secs: i64, nanos: u32) -> (text: Option<String>)
    ensures
        text_of(text) == rfc3339_utc_millis_text(secs, nanos),
        FIRST_FOUR_DIGIT_YEAR_SECS <= secs <= LAST_FOUR_DIGIT_YEAR_SECS && nanos < 1_000_000_000
            ==> text is Some && is_rfc3339_utc_millis(text->0@),
{
    chrono::DateTime::from_timestamp(secs, nanos).map(
        |t| t.to_rfc3339_opts(chrono::SecondsFormat::Millis, true),
    )
}

/// The instant a reading gives an event, kept within years 0 to 9999: a
/// reading before year 0 counts as its first instant, one after year 9999 as
/// its last millisecond.
pub open spec fn writable_unix_time(reading: ClockReading) -> (i64, u32) {
    match unix_time_of(reading) {
        Some(t) => if t.0 < FIRST_FOUR_DIGIT_YEAR_SECS {
            (FIRST_FOUR_DIGIT_YEAR_SECS, 0)
        } else if t.0 > LAST_FOUR_DIGIT_YEAR_SECS {
            (LAST_FOUR_DIGIT_YEAR_SECS, 999_999_999)
        } else {
            t
        },
        None => if reading is Ok {
            (LAST_FOUR_DIGIT_YEAR_SECS, 999_999_999)
        } else {
            (FIRST_FOUR_DIGIT_YEAR_SECS, 0)
        },
    }
}

/// The timestamp text of a clock reading: its instant, kept within years 0 to
/// 9999, written as RFC 3339 in UTC with milliseconds.
pub open spec fn timestamp_text_of(reading: ClockReading) -> Seq<char> {
    rfc3339_utc_millis_text(writable_unix_time(reading).0, writable_unix_time(reading).1)->0
}

/// The instant of a clock reading within years 0 to 9999, as
/// [`writable_unix_time`] says.
pub fn writable_time(reading: ClockReading) -> (time: (i64, u32))
    ensures
        time == writable_unix_time(reading),
        FIRST_FOUR_DIGIT_YEAR_SECS <= time.0 <= LAST_FOUR_DIGIT_YEAR_SECS,
        time.1 < 1_000_000_000,
{
    let is_after = reading.is_ok();
    match unix_time(reading) {
        Some((secs, nanos)) => if secs < FIRST_FOUR_DIGIT_YEAR_SECS {
            (FIRST_FOUR_DIGIT_YEAR_SECS, 0)
        } else if secs > LAST_FOUR_DIGIT_YEAR_SECS {
            (LAST_FOUR_DIGIT_YEAR_SECS, 999_999_999)
        } else {
            (secs, nanos)
        },
        None => if is_after {
            (LAST_FOUR_DIGIT_YEAR_SECS, 999_999_999)
        } else {
            (FIRST_FOUR_DIGIT_YEAR_SECS, 0)
        },
    }
}

/// A reading after the epoch within years 0 to 9999 is written as exactly the
/// instant it reads; a reading before the epoch is written as an instant
/// before 1970; so a nonzero reading and its mirror image before the epoch
/// are never written as the same instant.
pub proof fn lemma_writable_time_follows_the_reading(secs: u64, nanos: u32)
    requires
        nanos < 1_000_000_000,
    ensures
        secs <= LAST_FOUR_DIGIT_YEAR_SECS ==> writable_unix_time(Ok((secs, nanos))) == (
            secs as i64,
            nanos,
        ),
        writable_unix_time(Ok((secs, nanos))).0 >= 0,
        secs > 0 || nanos > 0 ==> writable_unix_time(Err((secs, nanos))).0 < 0,
        secs > 0 || nanos > 0 ==> writable_unix_time(Ok((secs, nanos))) != writable_unix_time(
            Err((secs, nanos)),
        ),
{
    let t = secs * 1_000_000_000 + nanos;
    assert(reading_nanos(Ok((secs, nanos))) == t);
    assert(reading_nanos(Err((secs, nanos))) == -t);
    assert(t / 1_000_000_000 == secs) by (nonlinear_arith)
        requires
            t == secs * 1_000_000_000 + nanos,
            nanos < 1_000_000_000,
    ;
    assert(t % 1_000_000_000 == nanos) by (nonlinear_arith)
        requires
            t == secs * 1_000_000_000 + nanos,
            nanos < 1_000_000_000,
    ;
    if secs > 0 || nanos > 0 {
        assert((-t) / 1_000_000_000 < 0) by (nonlinear_arith)
            requires
                t > 0,
        ;
    }
}

/// The timestamp that a clock reading gives an event: always 24 characters
/// of the form `YYYY-MM-DDTHH:MM:SS.mmmZ`.
pub fn timestamp_text(reading: ClockReading) -> (text: String)
    ensures
        text@ == timestamp_text_of(reading),
        is_rfc3339_utc_millis(text@),
{
    let (secs, nanos) = writable_time(reading);
    match rfc3339_utc_millis(secs, nanos) {
        Some(text) => text,
        None => String::new(),
    }
}

impl UserContext {
    /// The context for a most preferred language (if any could be read) and a
    /// timestamp: without a preference it falls back to English of any dialect.
    pub fn from_locale(preferred: Option<Locale>, timestamp: String) -> (ctx: Self)
        ensures
            ctx.timestamp@ == timestamp@,
            preferred matches Some(l) ==> ctx.country@ == l.country@ && ctx.language@
                == l.language@,
            preferred is None ==> ctx.country@ == "**"@ && ctx.language@ == "en"@,
    {
        let locale = match preferred {
            Some(l) => l,
            None => fallback_locale(),
        };
        UserContext { country: locale.country, language: locale.language, timestamp }
    }

    /// Reads the user's most preferred language and the system clock.
    ///
    /// The country is always "**" (any dialect); without a readable
    /// preference the language is "en". The timestamp is the RFC 3339 text,
    /// in UTC with milliseconds, of the clock reading, kept within years 0
    /// to 9999.
    pub fn collect() -> (ctx: Self)
        ensures
            ctx.country@ == "**"@,
            is_rfc3339_utc_millis(ctx.timestamp@),
            exists|reading: ClockReading|
                #![trigger timestamp_text_of(reading)]
                ctx.timestamp@ == timestamp_text_of(reading) && match reading {
                    Ok(d) => d.1 < 1_000_000_000,
                    Err(d) => d.1 < 1_000_000_000,
                },
    {
        let preferred = first_preferred_locale();
        let now = clock_now();
        let reading = since_epoch(&now);
        let timestamp = timestamp_text(reading);
        assert(timestamp@ == timestamp_text_of(reading));
        UserContext::from_locale(preferred, timestamp)
    }
}

} // verus!
