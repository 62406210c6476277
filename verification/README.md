# agent-runtime

Verified core of the integration of external agent runtimes: the registry of runtimes, the
protocol with a sidecar process that hosts agents, the host tools that such agents may call, the
handle under which the host manages native and external threads alike, and the tools by which a
model spawns agents.

- `src/` is the library. Every executable function carries its contract, stated over the deep
  views of the data (texts as sequences of characters, JSON values as what they hold).
  - `agent_runtime`, `registry`: identity and failures of runtimes, and who provides them.
  - `protocol`: events, statuses and operations that threads and host exchange.
  - `pi_proto`, `pi_connection`, `pi_client`, `pi_config`: messages, frames, connection and
    configuration of the sidecar.
  - `pi_session`, `pi_thread`: how a session is opened, and the thread that stands for it.
    `pi_translation` and `pi_operations` are its model, `pi_laws` and `pi_operations` hold what
    is proved of every history of it.
  - `external_host_tools`, `managed_agent_thread`, `spawn_agent`, `followup_task`: the host's
    side.
  - `fake_agent_runtime`: a scripted runtime for integration tests.
  - `audio_device`: the choice of an audio device.
  - `text`, `text_map`, `json`, `numbering`: what the others build on. `text` and `json` hold the
    items that are trusted: a few functions of `std` and of `serde_json`.
- `tests/` runs the library on concrete values.
- `app/` is ordinary Rust around the library: sockets, processes, locks, tasks, and the traits
  through which a host plugs in.
