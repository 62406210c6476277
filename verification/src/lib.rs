//! Verified core of the external agent runtime integration.
pub mod agent_runtime;
pub mod audio_device;
pub mod connection_laws;
pub mod external_host_tools;
pub mod fake_agent_runtime;
pub mod followup_task;
pub mod host_laws;
pub mod json;
pub mod managed_agent_thread;
pub mod managed_laws;
pub mod numbering;
pub mod pi_client;
pub mod pi_config;
pub mod pi_connection;
pub mod pi_history;
pub mod pi_laws;
pub mod pi_opening_laws;
pub mod pi_operations;
pub mod pi_proto;
pub mod pi_session;
pub mod pi_stream_laws;
pub mod pi_thread;
pub mod pi_translation;
pub mod protocol;
pub mod registry;
pub mod spawn_agent;
pub mod spawn_laws;
pub mod text;
pub mod text_map;
pub mod view_laws;
