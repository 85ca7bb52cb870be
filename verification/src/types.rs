//! Plain data carried between the verified core and its callers: tunnel
//! provider descriptions, global settings, request and response records,
//! and the outcomes reported by the external collaborators (PID file,
//! signals, process spawning, config validation).

use vstd::prelude::*;

verus! {

/// One named tunnel endpoint: the accept side listens locally, the
/// connect side names the remote peer.  Rendered as one `[name]` section.
pub struct Provider {
    pub name: String,
    pub is_client: bool,
    pub accept_port: u32,
    pub connect_host: String,
    pub connect_port: u32,
}

/// Settings emitted before the first provider section.  Empty string
/// fields are omitted from the rendered configuration.
pub struct GlobalSettings {
    pub foreground: bool,
    pub pid_file: String,
    pub cert_path: String,
    pub key_path: String,
    pub ca_path: String,
}

/// Verdict of the external tool's config check.
pub enum ValidationResult {
    Valid,
    Invalid(String),
}

/// What the PID file yields: a live process, or none (file absent,
/// unreadable, or naming a dead process) with a diagnostic.
pub enum PidStatus {
    Live(u32),
    NotRunning(String),
}

/// Outcome of sending the reload signal to a live process.
pub enum SignalOutcome {
    Delivered,
    Failed(String),
}

/// Outcome of launching a fresh tunnel process.
pub enum SpawnOutcome {
    Started(u32),
    Failed(String),
}

/// The one request failure surfaced at the transport level: an
/// add-provider request carrying no provider payload.
pub enum RequestError {
    MissingProvider,
}

pub struct ReloadRequest {
    pub config_path: String,
    pub validate_only: bool,
}

pub struct ReloadResponse {
    pub success: bool,
    pub message: String,
    pub pid: u32,
}

pub struct StatusResponse {
    pub is_running: bool,
    pub pid: u32,
    pub config_path: String,
    pub active_connections: Vec<String>,
}

pub struct UpdateConfigRequest {
    pub config_path: String,
    pub config_content: String,
}

pub struct UpdateConfigResponse {
    pub success: bool,
    pub message: String,
}

pub struct GenerateConfigRequest {
    pub settings: GlobalSettings,
    pub providers: Vec<Provider>,
}

pub struct GenerateConfigResponse {
    pub success: bool,
    pub message: String,
    pub config_content: String,
    pub config_path: String,
}

pub struct AddProviderRequest {
    pub provider: Option<Provider>,
    pub apply_immediately: bool,
}

pub struct AddProviderResponse {
    pub success: bool,
    pub message: String,
    pub updated_config: String,
}

} // verus!
