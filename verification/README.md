# xai-grok-telemetry

Telemetry for the grok shell with every outbound path removed, written in
Verus. What remains is proved against its contracts:

- `src/config.rs`, `src/http.rs`: the telemetry mode, the (ignored) analytics
  settings, the deployment key, the origin client.
- `src/tier.rs`: subscription tiers as stable snake_case keys, with the laws
  that normalising is idempotent and yields no capital or space.
- `src/metadata.rs`: event properties, a `serde_json` object behind trusted
  wrappers.
- `src/client.rs`: the client record, the mode gates, `init` /
  `init_if_needed` on an explicit client slot, the event funnel `track`, and
  the user context (locale and UTC timestamp).
- `src/sentry.rs`: crash reporting, inert: the SDK is never initialised.

`app/` holds the process-wide slots behind locks and the zero-argument entry
points that the rest of the shell calls. `tests/` runs the library with the
real outside crates linked.
