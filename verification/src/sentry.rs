//! Crash and error reporting, made inert.
//!
//! The Sentry SDK is never initialised from here: `sentry::init` would fill a
//! missing DSN from the `SENTRY_DSN` environment variable, so no environment
//! must be able to reach it. [`init`] hands out an [`InertGuard`] instead, and
//! nothing is captured or sent. The public surface (`Config`, [`init`],
//! [`flush_on_shutdown`]) stays so that the pager and the signal handlers need
//! no changes.

use vstd::prelude::*;

verus! {

#[verifier::external_type_specification]
#[verifier::external_body]
pub struct ExSentryClient(::sentry::Client);

#[verifier::external_type_specification]
#[verifier::external_body]
pub struct ExSentryHub(::sentry::Hub);

/// How long [`flush_on_shutdown`] lets in-flight events drain, in seconds.
pub const FLUSH_TIMEOUT_SECS: u64 = 2;

/// Per-host config; everything that varies between binaries lives here.
///
/// Since reporting is disabled, these fields are attached to no event.
pub struct Config {
    /// Sentry tag `client`, e.g. `"grok-pager"`.
    pub client: &'static str,
    pub client_version: &'static str,
    pub release: &'static str,
    /// Historically forced a no-op guard. Reporting is now always off.
    pub disabled: bool,
}

/// The current thread's hub (`sentry::Hub::current`).
#[verifier::external_body]
fn current_hub() -> std::sync::Arc<::sentry::Hub> {
    ::sentry::Hub::current()
}

/// The client bound to `hub`, if any (`sentry::Hub::client`). It depends on
/// what was bound before, so nothing is stated of it.
#[verifier::external_body]
fn bound_client(hub: &::sentry::Hub) -> Option<std::sync::Arc<::sentry::Client>> {
    hub.client()
}

/// Drains `client`'s pending events, waiting at most `timeout_secs` seconds
/// (`sentry::Client::flush`); it is only ever given the shutdown timeout.
/// Whether the queue drained in time depends on the transport, so nothing is
/// stated of the result.
#[verifier::external_body]
fn flush_client(client: &::sentry::Client, timeout_secs: u64) -> bool
    requires
        timeout_secs == FLUSH_TIMEOUT_SECS,
{
    client.flush(Some(std::time::Duration::from_secs(timeout_secs)))
}

/// What [`init`] hands out in place of an SDK guard. It binds no client, so
/// it reports nothing, whatever the environment holds; keeping it alive for
/// the whole process, as callers do, costs nothing.
pub struct InertGuard;

impl InertGuard {
    /// Whether reporting is live through this guard: never.
    pub fn is_enabled(&self) -> (enabled: bool)
        ensures
            !enabled,
    {
        false
    }
}

/// Returns an inert guard. Nothing is captured and nothing is sent: the SDK
/// is not initialised, so neither the config nor the environment can turn
/// reporting on.
///
/// The config is stored once: the first call's config stays in `stored` and
/// later calls leave it as it is.
pub fn init(stored: &mut Option<Config>, config: Config) -> (guard: InertGuard)
    ensures
        *old(stored) is None ==> *final(stored) == Some(config),
        *old(stored) is Some ==> *final(stored) == *old(stored),
{
    if stored.is_none() {
        *stored = Some(config);
    }
    InertGuard
}

/// Flushes the client bound at shutdown, if there is one: it is given
/// [`FLUSH_TIMEOUT_SECS`] seconds, and the result says whether its queue
/// drained in time. Without a bound client there is nothing to flush and the
/// result is `None`.
pub fn flush_bound_client(client: Option<std::sync::Arc<::sentry::Client>>) -> (drained: Option<
    bool,
>)
    ensures
        client is None <==> drained is None,
{
    match client {
        Some(client) => Some(flush_client(&client, FLUSH_TIMEOUT_SECS)),
        None => None,
    }
}

/// Flush in-flight events. Call before the process exits in signal handlers.
///
/// With no DSN there is nothing queued, so this returns at once; a bound
/// client is given [`FLUSH_TIMEOUT_SECS`] seconds.
pub fn flush_on_shutdown() {
    let hub = current_hub();
    let _ = flush_bound_client(bound_client(&hub));
}

} // verus!
