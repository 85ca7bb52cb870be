//! Tests of configuration rendering: exact documents, conditional
//! field emission, section order, and decimal formatting.

use stunnel_manager::render::render_config;
use stunnel_manager::text::contains_str;
use stunnel_manager::text::u32_to_dec;
use stunnel_manager::types::GlobalSettings;
use stunnel_manager::types::Provider;

fn web_provider() -> Provider {
    Provider {
        name: String::from("web"),
        is_client: false,
        accept_port: 8443,
        connect_host: String::from("10.0.0.5"),
        connect_port: 443,
    }
}

fn settings(cert: &str, key: &str, ca: &str) -> GlobalSettings {
    GlobalSettings {
        foreground: false,
        pid_file: String::new(),
        cert_path: String::from(cert),
        key_path: String::from(key),
        ca_path: String::from(ca),
    }
}

#[test]
fn generate_exact_document() {
    let g = GlobalSettings {
        foreground: true,
        pid_file: String::from("/tmp/tunnel.pid"),
        cert_path: String::new(),
        key_path: String::new(),
        ca_path: String::new(),
    };
    let p = Provider {
        name: String::from("web"),
        is_client: true,
        accept_port: 8443,
        connect_host: String::from("10.0.0.5"),
        connect_port: 443,
    };
    let out = render_config(&g, &vec![p], "2024-01-02T03:04:05+00:00");
    let expected = "; Stunnel configuration generated by Rust gRPC server\n\
                    ; Generated at: 2024-01-02T03:04:05+00:00\n\
                    \n\
                    foreground = yes\n\
                    debug = 7\n\
                    pid = /tmp/tunnel.pid\n\
                    \n\
                    ; web service\n\
                    [web]\n\
                    client = yes\n\
                    accept = 127.0.0.1:8443\n\
                    connect = 10.0.0.5:443\n\
                    \n";
    assert_eq!(out, expected);
}

#[test]
fn generate_with_cert_and_key_but_no_ca() {
    let g = settings("/etc/ssl/server.crt", "/etc/ssl/server.key", "");
    let out = render_config(&g, &vec![web_provider()], "2024-01-01T00:00:00+00:00");
    assert!(out.contains("[web]\n"));
    assert!(out.contains("accept = 127.0.0.1:8443\n"));
    assert!(out.contains("connect = 10.0.0.5:443\n"));
    assert!(out.contains("cert = /etc/ssl/server.crt\n"));
    assert!(out.contains("key = /etc/ssl/server.key\n"));
    assert!(!out.contains("verify = 2"));
    assert!(!out.contains("CAfile"));
    assert!(!out.contains("client = yes"));
}

#[test]
fn generate_ca_forces_verification() {
    let g = settings("/etc/ssl/server.crt", "/etc/ssl/server.key", "/etc/ssl/ca.crt");
    let out = render_config(&g, &vec![web_provider()], "2024-01-01T00:00:00+00:00");
    assert!(out.contains("CAfile = /etc/ssl/ca.crt\n"));
    assert!(out.contains("verify = 2\n"));
}

#[test]
fn generate_empty_fields_are_omitted() {
    let g = settings("", "", "");
    let out = render_config(&g, &Vec::new(), "2024-01-01T00:00:00+00:00");
    assert!(!out.contains("cert"));
    assert!(!out.contains("key ="));
    assert!(!out.contains("foreground"));
    assert!(out.contains("pid = /var/run/stunnel.pid\n"));
    assert!(out.contains("debug = 7\n"));
}

#[test]
fn generate_sections_in_input_order() {
    let g = settings("", "", "");
    let a = Provider {
        name: String::from("alpha"),
        is_client: false,
        accept_port: 1,
        connect_host: String::from("h1"),
        connect_port: 2,
    };
    let b = Provider {
        name: String::from("beta"),
        is_client: true,
        accept_port: 3,
        connect_host: String::from("h2"),
        connect_port: 4,
    };
    let out = render_config(&g, &vec![a, b], "2024-01-01T00:00:00+00:00");
    assert_eq!(out.matches("[alpha]").count(), 1);
    assert_eq!(out.matches("[beta]").count(), 1);
    let ia = out.find("[alpha]").unwrap();
    let ib = out.find("[beta]").unwrap();
    assert!(ia < ib);
}

#[test]
fn decimal_rendering() {
    assert_eq!(u32_to_dec(0), "0");
    assert_eq!(u32_to_dec(7), "7");
    assert_eq!(u32_to_dec(8443), "8443");
    assert_eq!(u32_to_dec(100), "100");
    assert_eq!(u32_to_dec(u32::MAX), "4294967295");
}

#[test]
fn substring_search() {
    assert!(contains_str("abcdef", "cde"));
    assert!(contains_str("abcdef", ""));
    assert!(contains_str("", ""));
    assert!(contains_str("aaa", "aa"));
    assert!(!contains_str("abcdef", "xyz"));
    assert!(!contains_str("ab", "abc"));
    assert!(!contains_str("", "a"));
}
