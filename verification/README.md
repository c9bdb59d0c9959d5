# yoyopod

The device-side logic of YoYoPod, a handheld for children (music, calls,
voice notes, an "Ask" assistant, location sharing), written in Verus: each
public function states what it returns or changes in `requires` / `ensures`,
and Verus proves the code against it.

## Layout

- `src/` — the verified library.
  - Runtime and UI: `intents` (what the runtime asks each worker when the
    user acts), `cloud_events` (telemetry from worker snapshots and the
    answers to remote commands), `correlation` (commands that wait for a
    worker's answer), `overlay` (the loading / error overlay's clock),
    `home` (the home screen's idle clock and the Ask failure timer),
    `ui_state`, `snapshot`, `accessibility`, `status`, `animation`.
  - Network worker: `wifi`, `profile`, `ipv4`, `provisioning`, `bluetooth`,
    `audio`, `tracking`, `worker`, `dispatch` (each command's reading and
    the envelopes that answer it), `worker_loop` (the main loop as a step
    from state and event to state and actions).
  - Cloud: `cloud`, `outbox`.
  - Media: `library`.
  - On-device validation: `checks`, `report`, `stages`, `ui_host`.
  - Shared: `text` (character sequences), `json` (reading `serde_json`
    values), `yaml` (reading `serde_yaml` values), `clock`.
- `tests/` — tests of the library on concrete inputs.
- `app/` — the `onpi` validation program and the pieces that talk to the
  system (D-Bus through `zbus`, files, the music directory's playlists, the
  GNSS receiver's floating-point readings); it calls the library for every
  decision.

Calls into other crates (`serde_json`, `serde_yaml`, `uuid`, `rand`,
`anyhow`, `std::path`, the clock) go through small wrappers marked
`#[verifier::external_body]`; each one's doc comment says what its contract
claims of the crate.
