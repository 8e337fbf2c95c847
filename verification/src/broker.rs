//! Broker policy: per-connection routing decisions, broker
//! configuration, account verification and spawner helpers.
//!
//! The broker reads the X.224 cookie, consults the session registry
//! and decides how to route the connection; the sockets, the process
//! spawning and the waiting happen outside the library and report
//! their outcomes back as plain values.

use vstd::prelude::*;

use crate::session::SessionEntry;
use crate::session::SessionStateSerde;

verus! {

/// Policy for handling existing sessions when a user reconnects.
#[derive(Debug, Clone, Copy, PartialEq, Eq, Structural)]
pub enum SessionPolicy {
    /// Only one session per user; reconnect to the existing session.
    OnePerUser,
    /// Stop the existing session and create a new one.
    ReplaceExisting,
}

/// Broker configuration.
#[derive(Debug, Clone)]
pub struct BrokerConfig {
    /// Address the broker listener binds to.
    pub bind: String,
    /// Path to the per-user backend binary.
    pub server_binary: String,
    /// Start of the port range allocated to per-user sessions.
    pub port_range_start: u16,
    /// End of the port range (inclusive).
    pub port_range_end: u16,
    /// PAM service name used for authentication.
    pub pam_service: String,
    /// Seconds of idle time before a disconnected session is stopped.
    pub idle_timeout_secs: u64,
    /// Maximum number of concurrent sessions.
    pub max_sessions: usize,
    /// What to do when a user already has a session.
    pub session_policy: SessionPolicy,
    /// Path of the persisted session state file.
    pub state_file: String,
    /// TLS certificate path (PEM); absent means self-signed.
    pub cert_path: Option<String>,
    /// TLS private key path (PEM); required with `cert_path`.
    pub key_path: Option<String>,
}

impl Default for BrokerConfig {
    /// The documented defaults: public RDP port, ports 3390-3489, one
    /// hour idle timeout, 100 sessions, one session per user.
    fn default() -> (r: Self)
        ensures
            r.bind@ == "0.0.0.0:3389"@,
            r.server_binary@ == "/usr/bin/cosmic-ext-rdp-server"@,
            r.port_range_start == 3390,
            r.port_range_end == 3489,
            r.pam_service@ == "cosmic-ext-rdp"@,
            r.idle_timeout_secs == 3600,
            r.max_sessions == 100,
            r.session_policy is OnePerUser,
            r.state_file@ == "/var/lib/cosmic-ext-rdp-broker/sessions.json"@,
            r.cert_path is None,
            r.key_path is None,
    {
        BrokerConfig {
            bind: "0.0.0.0:3389".to_owned(),
            server_binary: "/usr/bin/cosmic-ext-rdp-server".to_owned(),
            port_range_start: 3390,
            port_range_end: 3489,
            pam_service: "cosmic-ext-rdp".to_owned(),
            idle_timeout_secs: 3600,
            max_sessions: 100,
            session_policy: SessionPolicy::OnePerUser,
            state_file: "/var/lib/cosmic-ext-rdp-broker/sessions.json".to_owned(),
            cert_path: None,
            key_path: None,
        }
    }
}

/// What the broker does with an inbound connection, given the
/// registry's entry for the user.
#[derive(Debug, Clone, Copy, PartialEq, Eq, Structural)]
pub enum RouteAction {
    /// Mark the session active and proxy to the existing backend.
    ReconnectExisting {
        /// The existing backend's port.
        port: u16,
    },
    /// Stop and remove the existing backend, then create a new one.
    ReplaceThenCreate,
    /// Wait for the starting backend's port to accept, then proxy.
    WaitForStarting {
        /// The starting backend's port.
        port: u16,
    },
    /// Wait for the stopping backend to die, remove the entry, then
    /// create a new one.
    WaitForStoppingThenCreate,
    /// No session exists: create a new backend.
    CreateNew,
}

/// Decide how to route a connection for a user, from the registry's
/// current entry and the configured policy.
pub fn route_decision(existing: Option<&SessionEntry>, policy: SessionPolicy) -> (r: RouteAction)
    ensures
        existing is None ==> r is CreateNew,
        existing matches Some(e) ==> r == (match e.state {
            SessionStateSerde::Active | SessionStateSerde::Idle => {
                if policy is OnePerUser {
                    RouteAction::ReconnectExisting { port: e.port }
                } else {
                    RouteAction::ReplaceThenCreate
                }
            },
            SessionStateSerde::Starting => RouteAction::WaitForStarting { port: e.port },
            SessionStateSerde::Stopping => RouteAction::WaitForStoppingThenCreate,
        }),
{
    match existing {
        None => RouteAction::CreateNew,
        Some(e) => match e.state {
            SessionStateSerde::Active | SessionStateSerde::Idle => match policy {
                SessionPolicy::OnePerUser => RouteAction::ReconnectExisting { port: e.port },
                SessionPolicy::ReplaceExisting => RouteAction::ReplaceThenCreate,
            },
            SessionStateSerde::Starting => RouteAction::WaitForStarting { port: e.port },
            SessionStateSerde::Stopping => RouteAction::WaitForStoppingThenCreate,
        },
    }
}

/// Build the registry entry for a freshly routed session: state
/// `Starting`, pid not yet known, unit name not yet assigned.
pub fn new_session_entry(username: &str, port: u16, created_at: i64, client_addr: &str) -> (r:
    SessionEntry)
    ensures
        r.username@ == username@,
        r.port == port,
        r.pid == 0,
        r.state is Starting,
        r.created_at == created_at,
        r.client_addr@ == client_addr@,
        r.unit_name@ == Seq::<char>::empty(),
{
    SessionEntry {
        username: username.to_owned(),
        port,
        pid: 0,
        state: SessionStateSerde::Starting,
        created_at,
        client_addr: client_addr.to_owned(),
        unit_name: String::new(),
    }
}

/// Result of a successful account verification.
#[derive(Debug)]
pub struct PamAuthResult {
    /// The verified username.
    pub username: String,
    /// The Unix UID of the account.
    pub uid: u32,
}

/// Why account verification failed.
#[derive(Debug, Clone, Copy, PartialEq, Eq, Structural)]
pub enum AuthError {
    /// The username does not exist in the system user database.
    UnknownUser,
}

/// Relies on `nix::unistd::User::from_name`: the uid of the named
/// account, if it exists.  The result depends on the system user
/// database, so nothing is promised of it.
#[verifier::external_body]
fn lookup_uid(username: &str) -> Option<u32> {
    match nix::unistd::User::from_name(username) {
        Ok(Some(user)) => Some(user.uid.as_raw()),
        _ => None,
    }
}

/// Verify that a user account exists on the system (no password
/// check; full authentication is the per-user backend's job).
///
/// The user database decides which names resolve: whatever it
/// answers, a success carries the queried username and the uid the
/// database reported, and a failure is exactly the unknown-user
/// error.
pub fn verify_user_account(username: &str) -> (r: Result<PamAuthResult, AuthError>)
    ensures
        r matches Ok(a) ==> a.username@ == username@,
        r is Err ==> r == Err::<PamAuthResult, AuthError>(AuthError::UnknownUser),
{
    match lookup_uid(username) {
        Some(uid) => Ok(PamAuthResult { username: username.to_owned(), uid }),
        None => Err(AuthError::UnknownUser),
    }
}

/// Environment of a user's graphical session, as handed to the
/// spawned per-user backend.
#[derive(Debug, Clone)]
pub struct UserSessionEnv {
    /// Unix UID of the user.
    pub uid: u32,
    /// Unix GID of the user.
    pub gid: u32,
    /// Home directory.
    pub home: String,
    /// `WAYLAND_DISPLAY` value.
    pub wayland_display: String,
    /// `XDG_RUNTIME_DIR` value.
    pub xdg_runtime_dir: String,
    /// `DBUS_SESSION_BUS_ADDRESS` value.
    pub dbus_session_bus_address: String,
}

/// The next delay of the readiness probe's exponential backoff:
/// doubled, capped at two seconds.
pub fn backoff_next_delay_ms(delay_ms: u64) -> (r: u64)
    requires
        delay_ms <= 2000,
    ensures
        r == (if 2 * delay_ms < 2000 {
            2 * delay_ms
        } else {
            2000int
        }),
{
    if delay_ms >= 1000 {
        2000
    } else {
        2 * delay_ms
    }
}

/// Whether `b` begins with `prefix`.
pub open spec fn spec_starts_with(b: Seq<u8>, prefix: Seq<u8>) -> bool {
    prefix.len() <= b.len() && b.take(prefix.len() as int) == prefix
}

/// Whether `b` ends with `suffix`.
pub open spec fn spec_ends_with(b: Seq<u8>, suffix: Seq<u8>) -> bool {
    suffix.len() <= b.len() && b.skip(b.len() - suffix.len()) == suffix
}

/// Whether a directory entry of the user's runtime directory names a
/// usable Wayland socket: it begins with `wayland-` and is not a
/// `.lock` file.
pub fn is_wayland_socket_name(name: &Vec<u8>) -> (r: bool)
    ensures
        r <==> spec_starts_with(name@, "wayland-"@.map_values(|c: char| c as u8))
            && !spec_ends_with(name@, ".lock"@.map_values(|c: char| c as u8)),
{
    proof {
        reveal_strlit("wayland-");
        reveal_strlit(".lock");
    }
    let prefix: [u8; 8] = [0x77, 0x61, 0x79, 0x6C, 0x61, 0x6E, 0x64, 0x2D];
    let suffix: [u8; 5] = [0x2E, 0x6C, 0x6F, 0x63, 0x6B];
    proof {
        assert(prefix@ =~= "wayland-"@.map_values(|c: char| c as u8));
        assert(suffix@ =~= ".lock"@.map_values(|c: char| c as u8));
    }
    let n = name.len();
    if n < 8 {
        return false;
    }
    let mut i: usize = 0;
    while i < 8
        invariant
            0 <= i <= 8,
            n == name@.len(),
            n >= 8,
            prefix@ =~= "wayland-"@.map_values(|c: char| c as u8),
            suffix@ =~= ".lock"@.map_values(|c: char| c as u8),
            forall|j: int| 0 <= j < i ==> name@[j] == prefix@[j],
        decreases 8 - i,
    {
        if name[i] != prefix[i] {
            proof {
                assert(name@.take(8) != prefix@) by {
                    if name@.take(8) == prefix@ {
                        assert(name@.take(8)[i as int] == name@[i as int]);
                    }
                }
            }
            return false;
        }
        i += 1;
    }
    proof {
        assert(name@.take(8) =~= prefix@);
    }
    if n >= 5 {
        let base = n - 5;
        let mut all_match = true;
        let mut k: usize = 0;
        while k < 5
            invariant
                0 <= k <= 5,
                n == name@.len(),
                n >= 5,
                base == n - 5,
                suffix@ =~= ".lock"@.map_values(|c: char| c as u8),
                all_match <==> forall|j: int| 0 <= j < k ==> name@[base + j] == suffix@[j],
            decreases 5 - k,
        {
            if name[base + k] != suffix[k] {
                all_match = false;
            }
            k += 1;
        }
        if all_match {
            proof {
                assert(name@.skip(n - 5) =~= suffix@);
            }
            return false;
        }
        proof {
            assert(name@.skip(n - 5) != suffix@) by {
                let j = choose|j: int| 0 <= j < 5 && name@[base + j] != suffix@[j];
                if name@.skip(n - 5) == suffix@ {
                    assert(name@.skip(n - 5)[j] == name@[base + j]);
                }
            }
        }
    }
    true
}

} // verus!
