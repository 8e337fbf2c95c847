//! Tests of the broker side: X.224 parsing, cookie extraction, the
//! session registry, routing policy and configuration.

use rdp_core::broker::backoff_next_delay_ms;
use rdp_core::broker::is_wayland_socket_name;
use rdp_core::broker::new_session_entry;
use rdp_core::broker::route_decision;
use rdp_core::broker::verify_user_account;
use rdp_core::broker::AuthError;
use rdp_core::broker::BrokerConfig;
use rdp_core::broker::RouteAction;
use rdp_core::broker::SessionPolicy;
use rdp_core::config::enforce_local_only;
use rdp_core::config::load_and_merge_config;
use rdp_core::config::setup_auth;
use rdp_core::config::setup_tls;
use rdp_core::config::AuthConfig;
use rdp_core::config::CliOverrides;
use rdp_core::config::ConfigError;
use rdp_core::config::ServerConfig;
use rdp_core::config::TlsPlan;
use rdp_core::ipc::authorize_mutating_call;
use rdp_core::ipc::RdpServerState;
use rdp_core::ipc::ServerStatus;
use rdp_core::session::now_unix;
use rdp_core::session::RegistryError;
use rdp_core::session::SessionEntry;
use rdp_core::session::SessionRegistry;
use rdp_core::session::SessionStateSerde;
use rdp_core::x224::extract_cookie_username;
use rdp_core::x224::parse_connection_request;
use rdp_core::x224::parse_tpkt_header;
use rdp_core::x224::X224Error;

fn entry(username: &str, port: u16, state: SessionStateSerde) -> SessionEntry {
    SessionEntry {
        username: username.to_string(),
        port,
        pid: 0,
        state,
        created_at: 1000,
        client_addr: String::new(),
        unit_name: String::new(),
    }
}

#[test]
fn parse_cookie_username() {
    // Simulated X.224 CR payload (after the TPKT header):
    // 6 bytes of fixed header, then the cookie.
    let mut payload = vec![0u8; 6];
    payload[0] = 30;
    payload[1] = 0xE0;
    payload.extend_from_slice(b"Cookie: mstshash=testuser\r\n");

    let username = extract_cookie_username(&payload);
    assert_eq!(username, Some("testuser".to_string()));
}

#[test]
fn no_cookie_returns_none() {
    let payload = vec![0u8; 6];
    let username = extract_cookie_username(&payload);
    assert_eq!(username, None);
}

#[test]
fn unsafe_username_rejected() {
    let mut payload = vec![0u8; 6];
    payload[1] = 0xE0;
    payload.extend_from_slice(b"Cookie: mstshash=user;rm -rf\r\n");

    let username = extract_cookie_username(&payload);
    assert_eq!(username, None);
}

#[test]
fn cookie_case_insensitive_and_trimmed() {
    let mut payload = vec![0u8; 6];
    payload[1] = 0xE0;
    payload.extend_from_slice(b"COOKIE: MSTSHASH=  bob\r\nextra");
    assert_eq!(extract_cookie_username(&payload), Some("bob".to_string()));
}

#[test]
fn non_utf8_cookie_region_rejected() {
    // A well-formed cookie line followed by a byte that is not valid
    // UTF-8: the whole cookie region is rejected.
    let mut payload = vec![0u8; 6];
    payload[1] = 0xE0;
    payload.extend_from_slice(b"Cookie: mstshash=bob\r\n");
    payload.push(0xFF);
    assert_eq!(extract_cookie_username(&payload), None);

    // The same holds when the bad byte comes before the cookie line.
    let mut payload = vec![0u8; 6];
    payload[1] = 0xE0;
    payload.push(0xFF);
    payload.extend_from_slice(b"Cookie: mstshash=bob\r\n");
    assert_eq!(extract_cookie_username(&payload), None);
}

#[test]
fn cookie_too_long_rejected() {
    let mut payload = vec![0u8; 6];
    payload[1] = 0xE0;
    payload.extend_from_slice(b"Cookie: mstshash=");
    payload.extend_from_slice(&[b'a'; 65]);
    payload.extend_from_slice(b"\r\n");
    assert_eq!(extract_cookie_username(&payload), None);
}

#[test]
fn cookie_happy_path_full_parse() {
    let mut payload = vec![0u8; 6];
    payload[0] = 0x1E;
    payload[1] = 0xE0;
    payload.extend_from_slice(b"Cookie: mstshash=alice\r\n");
    let total = (payload.len() + 4) as u16;
    let header = [3u8, 0, (total >> 8) as u8, (total & 0xFF) as u8];

    let cr = parse_connection_request(&header, &payload).expect("valid CR");
    assert_eq!(cr.username, Some("alice".to_string()));
    // The raw packet is preserved byte for byte.
    let mut expected = header.to_vec();
    expected.extend_from_slice(&payload);
    assert_eq!(cr.raw_packet, expected);
}

#[test]
fn unsafe_cookie_full_parse_gives_no_username() {
    let mut payload = vec![0u8; 6];
    payload[0] = 0x1E;
    payload[1] = 0xE0;
    payload.extend_from_slice(b"Cookie: mstshash=alice;rm -rf\r\n");
    let total = (payload.len() + 4) as u16;
    let header = [3u8, 0, (total >> 8) as u8, (total & 0xFF) as u8];

    let cr = parse_connection_request(&header, &payload).expect("packet is well formed");
    assert_eq!(cr.username, None);
}

#[test]
fn tpkt_header_rejections() {
    assert_eq!(parse_tpkt_header(&[4, 0, 0, 34]), Err(X224Error::BadTpktVersion(4)));
    assert_eq!(parse_tpkt_header(&[3, 0, 0, 6]), Err(X224Error::TpktLengthTooSmall(6)));
    assert_eq!(parse_tpkt_header(&[3, 0, 0x20, 0x01]), Err(X224Error::TpktLengthTooLarge(8193)));
    assert_eq!(parse_tpkt_header(&[3, 0, 0, 34]), Ok(34));
}

#[test]
fn non_cr_tpdu_rejected() {
    let mut payload = vec![0u8; 6];
    payload[1] = 0xD0; // CC, not CR
    let total = (payload.len() + 4) as u16;
    let header = [3u8, 0, (total >> 8) as u8, (total & 0xFF) as u8];
    assert_eq!(
        parse_connection_request(&header, &payload).err(),
        Some(X224Error::NotConnectionRequest(0xD))
    );
}

#[test]
fn one_per_user_reconnect() {
    // Session `alice` exists, state Idle, port 3391: a new connection
    // under OnePerUser reuses the existing backend.
    let mut reg = SessionRegistry::new(3390, 3489, 100);
    reg.insert(entry("alice", 3391, SessionStateSerde::Idle));

    let action = route_decision(reg.get("alice"), SessionPolicy::OnePerUser);
    assert_eq!(action, RouteAction::ReconnectExisting { port: 3391 });

    reg.set_state("alice", SessionStateSerde::Active);
    assert_eq!(reg.get("alice").unwrap().state, SessionStateSerde::Active);
    assert_eq!(reg.get("alice").unwrap().port, 3391);
    assert_eq!(reg.count(), 1);
}

#[test]
fn replace_existing_allocates_new_port() {
    let mut reg = SessionRegistry::new(3390, 3489, 100);
    reg.insert(entry("alice", 3390, SessionStateSerde::Idle));

    let action = route_decision(reg.get("alice"), SessionPolicy::ReplaceExisting);
    assert_eq!(action, RouteAction::ReplaceThenCreate);

    let old = reg.remove("alice").expect("entry exists");
    assert_eq!(old.port, 3390);
    let port = reg.allocate_port().expect("range is free");
    assert_eq!(port, 3390);
    reg.insert(new_session_entry("alice", port, now_unix(), "10.0.0.5:50000"));
    assert_eq!(reg.get("alice").unwrap().state, SessionStateSerde::Starting);
}

#[test]
fn starting_and_stopping_routes() {
    let mut reg = SessionRegistry::new(3390, 3489, 100);
    reg.insert(entry("bob", 3392, SessionStateSerde::Starting));
    assert_eq!(
        route_decision(reg.get("bob"), SessionPolicy::OnePerUser),
        RouteAction::WaitForStarting { port: 3392 }
    );
    reg.set_state("bob", SessionStateSerde::Stopping);
    assert_eq!(
        route_decision(reg.get("bob"), SessionPolicy::OnePerUser),
        RouteAction::WaitForStoppingThenCreate
    );
    assert_eq!(route_decision(None, SessionPolicy::OnePerUser), RouteAction::CreateNew);
}

#[test]
fn port_exhaustion() {
    // Range 3390..=3391 with both ports held: no entry for carol.
    let mut reg = SessionRegistry::new(3390, 3391, 100);
    reg.insert(entry("alice", 3390, SessionStateSerde::Active));
    reg.insert(entry("bob", 3391, SessionStateSerde::Active));

    assert_eq!(reg.allocate_port(), Err(RegistryError::NoPortsAvailable));
    assert_eq!(reg.count(), 2);
    assert!(reg.get("carol").is_none());
}

#[test]
fn max_sessions_reached() {
    let mut reg = SessionRegistry::new(3390, 3489, 1);
    reg.insert(entry("alice", 3390, SessionStateSerde::Active));
    assert_eq!(reg.allocate_port(), Err(RegistryError::MaxSessionsReached));
}

#[test]
fn allocate_lowest_free_port() {
    let mut reg = SessionRegistry::new(3390, 3489, 100);
    reg.insert(entry("alice", 3390, SessionStateSerde::Active));
    reg.insert(entry("bob", 3392, SessionStateSerde::Active));
    assert_eq!(reg.allocate_port(), Ok(3391));
}

#[test]
fn save_then_restore_all_alive_is_identity() {
    // The reloaded set equals the saved set when every pid is alive.
    let saved = vec![
        entry("alice", 3390, SessionStateSerde::Active),
        entry("bob", 3391, SessionStateSerde::Idle),
    ];
    let mut reg = SessionRegistry::new(3390, 3489, 100);
    reg.restore_entries(saved, &vec![true, true]);
    assert_eq!(reg.count(), 2);
    assert_eq!(reg.get("alice").unwrap().port, 3390);
    assert_eq!(reg.get("bob").unwrap().port, 3391);
    assert_eq!(reg.get("bob").unwrap().state, SessionStateSerde::Idle);
}

#[test]
fn restore_drops_dead_entries() {
    let saved = vec![
        entry("alice", 3390, SessionStateSerde::Active),
        entry("bob", 3391, SessionStateSerde::Idle),
    ];
    let mut reg = SessionRegistry::new(3390, 3489, 100);
    reg.restore_entries(saved, &vec![false, true]);
    assert_eq!(reg.count(), 1);
    assert!(reg.get("alice").is_none());
    assert_eq!(reg.get("bob").unwrap().port, 3391);
}

#[test]
fn idle_sessions_respect_timeout() {
    let mut reg = SessionRegistry::new(3390, 3489, 100);
    let mut e = entry("alice", 3390, SessionStateSerde::Idle);
    e.created_at = 1000;
    reg.insert(e);
    let mut e2 = entry("bob", 3391, SessionStateSerde::Active);
    e2.created_at = 1000;
    reg.insert(e2);

    // 5000 - 1000 = 4000 > 3600: alice has expired; bob is active.
    assert_eq!(reg.idle_sessions_at(5000, 3600), vec!["alice".to_string()]);
    // 4000 - 1000 = 3000 <= 3600: nothing expired.
    assert!(reg.idle_sessions_at(4000, 3600).is_empty());
}

#[test]
fn set_client_addr_updates_entry() {
    let mut reg = SessionRegistry::new(3390, 3489, 100);
    reg.insert(entry("alice", 3390, SessionStateSerde::Active));
    reg.set_client_addr("alice", "192.0.2.7:1234");
    assert_eq!(reg.get("alice").unwrap().client_addr, "192.0.2.7:1234");
    reg.set_client_addr("alice", "");
    assert_eq!(reg.get("alice").unwrap().client_addr, "");
}

#[test]
fn unknown_user_is_rejected() {
    let r = verify_user_account("no-such-user-aa83kd");
    assert_eq!(r.err(), Some(AuthError::UnknownUser));
}

#[test]
fn root_account_resolves() {
    let r = verify_user_account("root").expect("root exists");
    assert_eq!(r.uid, 0);
    assert_eq!(r.username, "root");
}

#[test]
fn broker_defaults() {
    let cfg = BrokerConfig::default();
    assert_eq!(cfg.bind, "0.0.0.0:3389");
    assert_eq!(cfg.port_range_start, 3390);
    assert_eq!(cfg.port_range_end, 3489);
    assert_eq!(cfg.idle_timeout_secs, 3600);
    assert_eq!(cfg.max_sessions, 100);
    assert_eq!(cfg.session_policy, SessionPolicy::OnePerUser);
}

#[test]
fn backoff_doubles_to_cap() {
    assert_eq!(backoff_next_delay_ms(10), 20);
    assert_eq!(backoff_next_delay_ms(640), 1280);
    assert_eq!(backoff_next_delay_ms(1280), 2000);
    assert_eq!(backoff_next_delay_ms(2000), 2000);
}

#[test]
fn wayland_socket_names() {
    assert!(is_wayland_socket_name(&b"wayland-0".to_vec()));
    assert!(is_wayland_socket_name(&b"wayland-1".to_vec()));
    assert!(!is_wayland_socket_name(&b"wayland-0.lock".to_vec()));
    assert!(!is_wayland_socket_name(&b"pipewire-0".to_vec()));
    assert!(!is_wayland_socket_name(&b"wayland".to_vec()));
}

#[test]
fn now_unix_is_nonnegative() {
    assert!(now_unix() >= 0);
}

#[test]
fn merge_cli_overrides() {
    let cfg = ServerConfig::default();
    let cli = CliOverrides {
        addr: Some("127.0.0.1".to_string()),
        port: Some(4000),
        cert: None,
        key: None,
        static_display: true,
        swap_colors: false,
    };
    let merged = load_and_merge_config(cfg, cli).expect("merge succeeds");
    assert_eq!(merged.bind_host, "127.0.0.1");
    assert_eq!(merged.bind_port, 4000);
    assert!(merged.static_display);
    assert!(!merged.capture.swap_colors);
}

#[test]
fn cert_without_key_rejected() {
    let cfg = ServerConfig::default();
    let cli = CliOverrides {
        addr: None,
        port: None,
        cert: Some("/tmp/c.pem".to_string()),
        key: None,
        static_display: false,
        swap_colors: false,
    };
    assert_eq!(load_and_merge_config(cfg, cli).err(), Some(ConfigError::CertWithoutKey));

    let cfg = ServerConfig::default();
    let cli = CliOverrides {
        addr: None,
        port: None,
        cert: None,
        key: Some("/tmp/k.pem".to_string()),
        static_display: false,
        swap_colors: false,
    };
    assert_eq!(load_and_merge_config(cfg, cli).err(), Some(ConfigError::KeyWithoutCert));
}

#[test]
fn auth_setup_paths() {
    let mut cfg = ServerConfig::default();
    assert!(setup_auth(&cfg).expect("auth off").is_none());

    cfg.auth = AuthConfig {
        enable: true,
        username: String::new(),
        password: "pw".to_string(),
        domain: None,
    };
    assert_eq!(setup_auth(&cfg).err(), Some(ConfigError::AuthUsernameEmpty));

    cfg.auth.username = "user".to_string();
    cfg.auth.password = String::new();
    assert_eq!(setup_auth(&cfg).err(), Some(ConfigError::AuthPasswordEmpty));

    cfg.auth.password = "pw".to_string();
    let creds = setup_auth(&cfg).expect("valid").expect("enabled");
    assert_eq!(creds.username, "user");
    assert_eq!(creds.password, "pw");
}

#[test]
fn tls_plan_selection() {
    let mut cfg = ServerConfig::default();
    assert!(matches!(setup_tls(&cfg), TlsPlan::SelfSigned));

    cfg.cert_path = Some("/tmp/c.pem".to_string());
    assert!(matches!(setup_tls(&cfg), TlsPlan::SelfSigned));

    cfg.key_path = Some("/tmp/k.pem".to_string());
    match setup_tls(&cfg) {
        TlsPlan::FromFiles { cert, key } => {
            assert_eq!(cert, "/tmp/c.pem");
            assert_eq!(key, "/tmp/k.pem");
        }
        TlsPlan::SelfSigned => panic!("expected file-based TLS"),
    }
}

#[test]
fn security_gate() {
    assert!(enforce_local_only(false, true).is_ok());
    assert!(enforce_local_only(true, false).is_ok());
    assert_eq!(enforce_local_only(false, false).err(), Some(ConfigError::NonLoopbackWithoutAuth));
}

#[test]
fn server_status_codes_and_state() {
    assert_eq!(ServerStatus::Stopped.code(), 0);
    assert_eq!(ServerStatus::Starting.code(), 1);
    assert_eq!(ServerStatus::Running.code(), 2);
    assert_eq!(ServerStatus::Error.code(), 3);
    assert_eq!(ServerStatus::Running.label(), "Running");

    let mut state = RdpServerState::new("127.0.0.1:3389".to_string());
    assert!(!state.running());
    state.set_status(ServerStatus::Running);
    assert!(state.running());
    assert_eq!(state.bound_address, "127.0.0.1:3389");
}

#[test]
fn mutating_ipc_requires_same_uid() {
    assert!(authorize_mutating_call(1000, 1000));
    assert!(!authorize_mutating_call(1000, 0));
}
