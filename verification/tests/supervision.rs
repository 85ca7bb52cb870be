//! Tests of the reload-or-start decision, the status report, and the
//! service's path handling.

use stunnel_manager::server::generate_success_response;
use stunnel_manager::server::generate_write_failed_response;
use stunnel_manager::server::StunnelServer;
use stunnel_manager::supervise::apply_immediate_target;
use stunnel_manager::supervise::reload_after_signal;
use stunnel_manager::supervise::reload_after_spawn;
use stunnel_manager::supervise::reload_decide;
use stunnel_manager::supervise::status_report;
use stunnel_manager::supervise::validate_only_response;
use stunnel_manager::supervise::ReloadAction;
use stunnel_manager::types::GenerateConfigRequest;
use stunnel_manager::types::GlobalSettings;
use stunnel_manager::types::PidStatus;
use stunnel_manager::types::Provider;
use stunnel_manager::types::SignalOutcome;
use stunnel_manager::types::SpawnOutcome;
use stunnel_manager::types::ValidationResult;

#[test]
fn live_pid_is_reloaded_never_started() {
    let action = reload_decide(&PidStatus::Live(4242));
    assert_eq!(action, ReloadAction::SendReload(4242));
}

#[test]
fn dead_pid_starts_fresh_never_signals() {
    let action = reload_decide(&PidStatus::NotRunning(String::from("pid file absent")));
    assert_eq!(action, ReloadAction::StartNew);
}

#[test]
fn validate_only_reports_verdict_without_process_interaction() {
    let ok = validate_only_response(&ValidationResult::Valid);
    assert!(ok.success);
    assert_eq!(ok.message, "Configuration is valid");
    assert_eq!(ok.pid, 0);

    let bad = validate_only_response(&ValidationResult::Invalid(String::from("line 3: junk")));
    assert!(!bad.success);
    assert_eq!(bad.message, "Config validation failed: line 3: junk");
    assert_eq!(bad.pid, 0);
}

#[test]
fn signal_outcomes_map_to_responses() {
    let ok = reload_after_signal(77, &SignalOutcome::Delivered);
    assert!(ok.success);
    assert_eq!(ok.pid, 77);
    assert_eq!(ok.message, "Configuration reloaded successfully");

    let bad = reload_after_signal(77, &SignalOutcome::Failed(String::from("EPERM")));
    assert!(!bad.success);
    assert_eq!(bad.pid, 0);
    assert_eq!(bad.message, "Failed to reload stunnel: EPERM");
}

#[test]
fn spawn_outcomes_map_to_responses() {
    let ok = reload_after_spawn(&SpawnOutcome::Started(311));
    assert!(ok.success);
    assert_eq!(ok.pid, 311);
    assert_eq!(ok.message, "Stunnel started successfully");

    let bad = reload_after_spawn(&SpawnOutcome::Failed(String::from("binary not found")));
    assert!(!bad.success);
    assert_eq!(bad.pid, 0);
    assert_eq!(bad.message, "Failed to start stunnel: binary not found");
}

#[test]
fn apply_immediately_reloads_only_live_processes() {
    assert_eq!(apply_immediate_target(&PidStatus::Live(12)), Some(12));
    assert_eq!(
        apply_immediate_target(&PidStatus::NotRunning(String::from("gone"))),
        None
    );
}

#[test]
fn status_running_flag_is_exactly_liveness() {
    let conns = vec![String::from("127.0.0.1:8443 -> 10.0.0.5:443")];
    let path = String::from("/etc/stunnel/stunnel.conf");

    let up = status_report(&PidStatus::Live(99), &path, conns.clone());
    assert!(up.is_running);
    assert_eq!(up.pid, 99);
    assert_eq!(up.config_path, path);
    assert_eq!(up.active_connections, conns);

    let down = status_report(
        &PidStatus::NotRunning(String::from("stale pid")),
        &path,
        conns,
    );
    assert!(!down.is_running);
    assert_eq!(down.pid, 0);
    assert_eq!(down.config_path, path);
    assert!(down.active_connections.is_empty());
}

#[test]
fn server_paths_and_overrides() {
    let server = StunnelServer::new(
        String::from("/etc/stunnel/stunnel.conf"),
        String::from("/var/run/stunnel.pid"),
    );
    assert_eq!(server.config_path().as_str(), "/etc/stunnel/stunnel.conf");
    assert_eq!(server.pid_file().as_str(), "/var/run/stunnel.pid");
    assert_eq!(
        server.resolve_config_path(""),
        "/etc/stunnel/stunnel.conf"
    );
    assert_eq!(server.resolve_config_path("/tmp/other.conf"), "/tmp/other.conf");
}

#[test]
fn generated_config_carries_fresh_timestamp_header() {
    let server = StunnelServer::new(
        String::from("/etc/stunnel/stunnel.conf"),
        String::from("/var/run/stunnel.pid"),
    );
    let req = GenerateConfigRequest {
        settings: GlobalSettings {
            foreground: false,
            pid_file: String::new(),
            cert_path: String::new(),
            key_path: String::new(),
            ca_path: String::new(),
        },
        providers: vec![Provider {
            name: String::from("web"),
            is_client: false,
            accept_port: 8443,
            connect_host: String::from("10.0.0.5"),
            connect_port: 443,
        }],
    };
    let out = server.render_generated_config(&req);
    assert!(out.starts_with("; Stunnel configuration generated by Rust gRPC server\n; Generated at: 2"));
    assert!(out.contains("[web]\n"));
    let ts_line = out.lines().nth(1).unwrap();
    assert!(ts_line.len() > "; Generated at: ".len());
}

#[test]
fn generate_responses() {
    let bad = generate_write_failed_response("permission denied");
    assert!(!bad.success);
    assert_eq!(bad.message, "Failed to write config file: permission denied");
    assert_eq!(bad.config_content, "");
    assert_eq!(bad.config_path, "");

    let ok = generate_success_response(String::from("text"), "/etc/stunnel/stunnel.conf");
    assert!(ok.success);
    assert_eq!(ok.message, "Configuration generated successfully");
    assert_eq!(ok.config_content, "text");
    assert_eq!(ok.config_path, "/etc/stunnel/stunnel.conf");
}
