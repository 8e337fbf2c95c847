//! IPC surface of the daemons: server status, daemon commands, caller
//! authorization, and the message set of the settings application.

use vstd::prelude::*;

use crate::config::ServerConfig;

verus! {

/// Current status of the RDP server daemon.
#[derive(Debug, Clone, Copy, PartialEq, Eq, Structural)]
pub enum ServerStatus {
    /// Server is stopped / not running.
    Stopped,
    /// Server is starting up.
    Starting,
    /// Server is running and accepting connections.
    Running,
    /// Server encountered an error.
    Error,
}

impl ServerStatus {
    /// The numeric status code carried over IPC.
    pub fn code(self) -> (r: u8)
        ensures
            self is Stopped ==> r == 0,
            self is Starting ==> r == 1,
            self is Running ==> r == 2,
            self is Error ==> r == 3,
    {
        match self {
            ServerStatus::Stopped => 0,
            ServerStatus::Starting => 1,
            ServerStatus::Running => 2,
            ServerStatus::Error => 3,
        }
    }

    /// The human-readable status name.
    pub fn label(self) -> (r: &'static str)
        ensures
            self is Stopped ==> r@ == "Stopped"@,
            self is Starting ==> r@ == "Starting"@,
            self is Running ==> r@ == "Running"@,
            self is Error ==> r@ == "Error"@,
    {
        match self {
            ServerStatus::Stopped => "Stopped",
            ServerStatus::Starting => "Starting",
            ServerStatus::Running => "Running",
            ServerStatus::Error => "Error",
        }
    }
}

/// Information about a connected RDP client.
#[derive(Debug, Clone)]
pub struct ClientInfo {
    /// Remote address of the client.
    pub address: String,
    /// Unix timestamp (seconds) when the client connected.
    pub connected_at: i64,
}

/// Commands sent from IPC to the daemon.
#[derive(Debug, Clone, Copy, PartialEq, Eq, Structural)]
pub enum DaemonCommand {
    /// Re-read the configuration file.
    Reload,
    /// Shut down gracefully.
    Stop,
}

/// State the daemon exposes over IPC.
#[derive(Debug)]
pub struct RdpServerState {
    /// Current status.
    pub status: ServerStatus,
    /// The address the server is bound to.
    pub bound_address: String,
}

impl RdpServerState {
    /// Fresh state: starting, at the given address.
    pub fn new(bound_address: String) -> (r: Self)
        ensures
            r.status is Starting,
            r.bound_address == bound_address,
    {
        RdpServerState { status: ServerStatus::Starting, bound_address }
    }

    /// Update the status.
    pub fn set_status(&mut self, status: ServerStatus)
        ensures
            final(self).status == status,
            final(self).bound_address == old(self).bound_address,
    {
        self.status = status;
    }

    /// Whether the server is running.
    pub fn running(&self) -> (r: bool)
        ensures
            r <==> self.status is Running,
    {
        match self.status {
            ServerStatus::Running => true,
            _ => false,
        }
    }
}

/// Authorization of a mutating IPC call: only a caller running as the
/// same Unix user as the service may reload or stop it.
pub fn authorize_mutating_call(caller_uid: u32, service_uid: u32) -> (r: bool)
    ensures
        r <==> caller_uid == service_uid,
{
    caller_uid == service_uid
}

/// Pages in the settings navigation.
#[derive(Debug, Clone, Copy, PartialEq, Eq, Structural)]
pub enum Page {
    /// Server address and lifecycle.
    General,
    /// TLS and authentication.
    Security,
    /// Capture and encoding.
    Display,
    /// Clipboard and audio.
    Features,
}

/// All messages the settings application handles.
#[derive(Debug)]
pub enum Message {
    /// Toggle the server on/off over IPC.
    ToggleServer(bool),
    /// Bind address changed.
    BindAddress(String),
    /// Port changed.
    Port(String),
    /// Static display toggle.
    StaticDisplay(bool),
    /// TLS certificate path changed.
    CertPath(String),
    /// TLS key path changed.
    KeyPath(String),
    /// NLA enable toggle.
    NlaEnable(bool),
    /// NLA username changed.
    NlaUsername(String),
    /// NLA password changed.
    NlaPassword(String),
    /// NLA domain changed.
    NlaDomain(String),
    /// FPS changed.
    Fps(String),
    /// Buffer capacity changed.
    BufferCapacity(String),
    /// Multi-monitor toggle.
    MultiMonitor(bool),
    /// Encoder selection changed.
    Encoder(usize),
    /// Encoding preset changed.
    Preset(String),
    /// Bitrate changed (Mbps input).
    Bitrate(String),
    /// Clipboard toggle.
    ClipboardEnable(bool),
    /// Audio toggle.
    AudioEnable(bool),
    /// Audio sample rate selection.
    SampleRate(usize),
    /// Audio channels selection.
    Channels(usize),
    /// Apply settings: write the file and reload over IPC.
    Apply,
    /// Reset settings from disk.
    Reset,
    /// Server status update from IPC polling.
    StatusUpdate {
        /// Whether the server runs.
        running: bool,
        /// Number of connections.
        connections: u32,
        /// Bound address.
        address: String,
    },
    /// IPC is not available.
    DbusUnavailable,
    /// Configuration loaded from disk.
    ConfigLoaded(Box<ServerConfig>),
    /// Configuration saved successfully.
    ConfigSaved,
    /// An error occurred.
    Error(String),
    /// Stop command sent over IPC.
    StopSent,
    /// Poll the server status.
    PollStatus,
}

} // verus!
