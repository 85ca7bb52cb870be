//! Tests of the transactional update and the provider append: rollback,
//! idempotence, duplicate rejection, and the exact response messages.

use stunnel_manager::mutate::add_backup_failed_response;
use stunnel_manager::mutate::add_provider_decide;
use stunnel_manager::mutate::add_read_failed_response;
use stunnel_manager::mutate::add_success_response;
use stunnel_manager::mutate::add_write_failed_response;
use stunnel_manager::mutate::apply_update_transaction;
use stunnel_manager::mutate::build_provider_section;
use stunnel_manager::mutate::config_defines_provider;
use stunnel_manager::mutate::take_provider;
use stunnel_manager::mutate::update_after_validation;
use stunnel_manager::mutate::update_backup_failed_response;
use stunnel_manager::mutate::update_write_failed_response;
use stunnel_manager::mutate::AddDecision;
use stunnel_manager::types::AddProviderRequest;
use stunnel_manager::types::Provider;
use stunnel_manager::types::RequestError;
use stunnel_manager::types::ValidationResult;

fn api_provider() -> Provider {
    Provider {
        name: String::from("api"),
        is_client: false,
        accept_port: 9000,
        connect_host: String::from("backend"),
        connect_port: 90,
    }
}

#[test]
fn update_rejected_content_rolls_back() {
    let current = String::from("; current\n[web]\naccept = 127.0.0.1:1\n");
    let newc = String::from("not a config at all");
    let verdict = ValidationResult::Invalid(String::from("bad syntax at line 1"));
    let (after, resp) = apply_update_transaction(&current, &newc, &verdict);
    assert_eq!(after, current);
    assert!(!resp.success);
    assert_eq!(resp.message, "Invalid configuration: bad syntax at line 1");
}

#[test]
fn update_accepted_content_replaces() {
    let current = String::from("old");
    let newc = String::from("new content\n");
    let (after, resp) = apply_update_transaction(&current, &newc, &ValidationResult::Valid);
    assert_eq!(after, newc);
    assert!(resp.success);
    assert_eq!(resp.message, "Configuration updated successfully");
}

#[test]
fn update_twice_with_same_content_is_idempotent() {
    let current = String::from("old");
    let newc = String::from("new content\n");
    let (once, _) = apply_update_transaction(&current, &newc, &ValidationResult::Valid);
    let (twice, resp) = apply_update_transaction(&once, &newc, &ValidationResult::Valid);
    assert_eq!(once, twice);
    assert!(resp.success);

    let bad = ValidationResult::Invalid(String::from("no"));
    let (once_f, _) = apply_update_transaction(&current, &newc, &bad);
    let (twice_f, _) = apply_update_transaction(&once_f, &newc, &bad);
    assert_eq!(once_f, twice_f);
    assert_eq!(once_f, current);
}

#[test]
fn update_restore_directive_follows_verdict() {
    let (restore, resp) =
        update_after_validation(&ValidationResult::Invalid(String::from("broken")));
    assert!(restore);
    assert!(!resp.success);
    assert_eq!(resp.message, "Invalid configuration: broken");

    let (restore_ok, resp_ok) = update_after_validation(&ValidationResult::Valid);
    assert!(!restore_ok);
    assert!(resp_ok.success);
}

#[test]
fn update_step_failure_messages() {
    let r = update_backup_failed_response("disk full");
    assert!(!r.success);
    assert_eq!(r.message, "Failed to backup config: disk full");
    let w = update_write_failed_response("read-only file system");
    assert!(!w.success);
    assert_eq!(w.message, "Failed to write config: read-only file system");
}

#[test]
fn provider_section_text_shape() {
    let s = build_provider_section(&api_provider());
    assert_eq!(
        s,
        "\n; api service\n[api]\naccept = 127.0.0.1:9000\nconnect = backend:90\n"
    );
    let client = Provider {
        is_client: true,
        ..api_provider()
    };
    let sc = build_provider_section(&client);
    assert_eq!(
        sc,
        "\n; api service\n[api]\nclient = yes\naccept = 127.0.0.1:9000\nconnect = backend:90\n"
    );
}

#[test]
fn add_provider_duplicate_is_rejected_without_change() {
    let existing = String::from("; config\n[api]\naccept = 127.0.0.1:9000\n");
    let snapshot = existing.clone();
    let decision = add_provider_decide(&existing, &api_provider());
    match decision {
        AddDecision::Duplicate(resp) => {
            assert!(!resp.success);
            assert_eq!(resp.message, "Provider api already exists in config");
            assert_eq!(resp.updated_config, "");
        }
        AddDecision::Append(_) => panic!("duplicate name must be rejected"),
    }
    assert_eq!(existing, snapshot);
}

#[test]
fn add_provider_appends_then_readd_fails_as_duplicate() {
    let existing = String::from("; config\n[web]\naccept = 127.0.0.1:1\n");
    let updated = match add_provider_decide(&existing, &api_provider()) {
        AddDecision::Append(u) => u,
        AddDecision::Duplicate(_) => panic!("fresh name must be appended"),
    };
    assert_eq!(
        updated,
        "; config\n[web]\naccept = 127.0.0.1:1\n\n; api service\n[api]\naccept = 127.0.0.1:9000\nconnect = backend:90\n"
    );
    assert!(matches!(
        add_provider_decide(&updated, &api_provider()),
        AddDecision::Duplicate(_)
    ));
}

#[test]
fn duplicate_check_matches_bracketed_header_only() {
    assert!(config_defines_provider("[api]\n", "api"));
    assert!(!config_defines_provider("; api service\napi = yes\n", "api"));
    assert!(config_defines_provider("x[api]x", "api"));
    assert!(!config_defines_provider("[apix]\n", "api"));
}

#[test]
fn take_provider_requires_payload() {
    let missing = AddProviderRequest {
        provider: None,
        apply_immediately: true,
    };
    assert!(matches!(
        take_provider(missing),
        Err(RequestError::MissingProvider)
    ));

    let present = AddProviderRequest {
        provider: Some(api_provider()),
        apply_immediately: true,
    };
    match take_provider(present) {
        Ok((p, apply)) => {
            assert_eq!(p.name, "api");
            assert!(apply);
        }
        Err(_) => panic!("a supplied provider must be accepted"),
    }
}

#[test]
fn add_provider_response_messages() {
    let read = add_read_failed_response("no such file");
    assert!(!read.success);
    assert_eq!(read.message, "Failed to read existing config: no such file");
    let backup = add_backup_failed_response("disk full");
    assert_eq!(backup.message, "Failed to backup config: disk full");
    let write = add_write_failed_response("denied");
    assert_eq!(write.message, "Failed to write updated config: denied");
    let ok = add_success_response("api", String::from("full text"));
    assert!(ok.success);
    assert_eq!(ok.message, "Provider api added successfully");
    assert_eq!(ok.updated_config, "full text");
}
