//! Process supervision decisions.
//!
//! The supervisor re-derives the process state from the PID file on
//! every call.  Given that state it decides between signalling a live
//! process to reload and launching a fresh instance, and the status
//! reporter turns the same state into the operational report.  The
//! signals, spawns and probes themselves are performed by the caller.

use vstd::prelude::*;

use crate::text::concat2;
use crate::types::PidStatus;
use crate::types::ReloadResponse;
use crate::types::SignalOutcome;
use crate::types::SpawnOutcome;
use crate::types::StatusResponse;
use crate::types::ValidationResult;

verus! {

/// What a reload request does next, once the PID file has been
/// consulted.
#[derive(Debug, PartialEq, Eq, Structural)]
pub enum ReloadAction {
    /// Send the reload signal to this live process; never start a
    /// second instance beside it.
    SendReload(u32),
    /// No live process: launch a fresh one against the resolved path.
    StartNew,
}

/// The reload-or-start decision.  A live PID is always signalled and
/// never doubled by a new instance; with no live PID a fresh instance
/// is always started and no signal is sent.
pub fn reload_decide(pid: &PidStatus) -> (r: ReloadAction)
    ensures
        pid matches PidStatus::Live(p) ==> r == ReloadAction::SendReload(*p),
        pid is NotRunning ==> r == ReloadAction::StartNew,
{
    match pid {
        PidStatus::Live(p) => ReloadAction::SendReload(*p),
        PidStatus::NotRunning(_) => ReloadAction::StartNew,
    }
}

/// Report of a validate-only request: no process interaction at all,
/// only the validator's verdict.
pub fn validate_only_response(v: &ValidationResult) -> (r: ReloadResponse)
    ensures
        r.success == (v is Valid),
        r.pid == 0,
        v is Valid ==> r.message@ == "Configuration is valid"@,
        v matches ValidationResult::Invalid(e) ==> r.message@ == "Config validation failed: "@
            + e@,
{
    match v {
        ValidationResult::Valid => ReloadResponse {
            success: true,
            message: String::from_str("Configuration is valid"),
            pid: 0,
        },
        ValidationResult::Invalid(e) => ReloadResponse {
            success: false,
            message: concat2("Config validation failed: ", e.as_str()),
            pid: 0,
        },
    }
}

/// Report after signalling a live process: success carries its PID, a
/// rejected signal reports failure with PID 0 and no fallback start.
pub fn reload_after_signal(pid: u32, out: &SignalOutcome) -> (r: ReloadResponse)
    ensures
        r.success == (out is Delivered),
        out is Delivered ==> r.pid == pid && r.message@
            == "Configuration reloaded successfully"@,
        out matches SignalOutcome::Failed(e) ==> r.pid == 0 && r.message@
            == "Failed to reload stunnel: "@ + e@,
{
    match out {
        SignalOutcome::Delivered => ReloadResponse {
            success: true,
            message: String::from_str("Configuration reloaded successfully"),
            pid,
        },
        SignalOutcome::Failed(e) => ReloadResponse {
            success: false,
            message: concat2("Failed to reload stunnel: ", e.as_str()),
            pid: 0,
        },
    }
}

/// Report after launching a fresh instance: success carries the new
/// PID, failure reports PID 0.
pub fn reload_after_spawn(out: &SpawnOutcome) -> (r: ReloadResponse)
    ensures
        r.success == (out is Started),
        out matches SpawnOutcome::Started(p) ==> r.pid == *p && r.message@
            == "Stunnel started successfully"@,
        out matches SpawnOutcome::Failed(e) ==> r.pid == 0 && r.message@
            == "Failed to start stunnel: "@ + e@,
{
    match out {
        SpawnOutcome::Started(p) => ReloadResponse {
            success: true,
            message: String::from_str("Stunnel started successfully"),
            pid: *p,
        },
        SpawnOutcome::Failed(e) => ReloadResponse {
            success: false,
            message: concat2("Failed to start stunnel: ", e.as_str()),
            pid: 0,
        },
    }
}

/// The apply-immediately step of add-provider: reload only a live
/// process; with none running, nothing is signalled and nothing is
/// started.
pub fn apply_immediate_target(pid: &PidStatus) -> (r: Option<u32>)
    ensures
        pid matches PidStatus::Live(p) ==> r == Some(*p),
        pid is NotRunning ==> r is None,
{
    match pid {
        PidStatus::Live(p) => Some(*p),
        PidStatus::NotRunning(_) => None,
    }
}

/// The status report is a pure read.  Its running flag is exactly the
/// liveness the PID file yielded; a live process reports its PID and
/// the probed connections, and with no live process the PID is 0 and
/// the connection list is empty whatever the probe would have said.
pub fn status_report(pid: &PidStatus, config_path: &String, connections: Vec<String>) -> (r:
    StatusResponse)
    ensures
        r.is_running == (pid is Live),
        pid matches PidStatus::Live(p) ==> r.pid == *p && r.active_connections@ == connections@,
        pid is NotRunning ==> r.pid == 0 && r.active_connections@.len() == 0,
        r.config_path@ == config_path@,
{
    match pid {
        PidStatus::Live(p) => StatusResponse {
            is_running: true,
            pid: *p,
            config_path: config_path.clone(),
            active_connections: connections,
        },
        PidStatus::NotRunning(_) => StatusResponse {
            is_running: false,
            pid: 0,
            config_path: config_path.clone(),
            active_connections: Vec::new(),
        },
    }
}

} // verus!
