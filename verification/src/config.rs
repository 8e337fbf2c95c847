//! Per-user server configuration: defaults, the CLI-over-file merge,
//! authentication setup, TLS selection and the local-only security
//! gate.

use vstd::prelude::*;

use crate::display::AuthCredentials;

verus! {

/// Network-level authentication settings.
#[derive(Debug, Clone)]
pub struct AuthConfig {
    /// Enable NLA via CredSSP; clients must then authenticate before
    /// seeing the desktop.
    pub enable: bool,
    /// Username for NLA authentication.
    pub username: String,
    /// Password for NLA authentication.
    pub password: String,
    /// Windows domain (optional).
    pub domain: Option<String>,
}

impl Default for AuthConfig {
    /// Authentication off, no credentials.
    fn default() -> (r: Self)
        ensures
            !r.enable,
            r.username@.len() == 0,
            r.password@.len() == 0,
            r.domain is None,
    {
        AuthConfig { enable: false, username: String::new(), password: String::new(), domain: None }
    }
}

/// Screen capture settings.
#[derive(Debug, Clone)]
pub struct CaptureConfig {
    /// Target frames per second.
    pub fps: u32,
    /// Capture channel capacity (buffered frames).
    pub channel_capacity: usize,
    /// Merge all selected monitors into one virtual desktop.
    pub multi_monitor: bool,
    /// Swap the red and blue channels (field debugging aid).
    pub swap_colors: bool,
}

impl Default for CaptureConfig {
    /// Thirty frames per second, four buffered frames, single monitor.
    fn default() -> (r: Self)
        ensures
            r.fps == 30,
            r.channel_capacity == 4,
            !r.multi_monitor,
            !r.swap_colors,
    {
        CaptureConfig { fps: 30, channel_capacity: 4, multi_monitor: false, swap_colors: false }
    }
}

/// Clipboard sharing settings.
#[derive(Debug, Clone)]
pub struct ClipboardConfig {
    /// Enable clipboard sharing between local and remote sessions.
    pub enable: bool,
}

impl Default for ClipboardConfig {
    /// Clipboard sharing on.
    fn default() -> (r: Self)
        ensures
            r.enable,
    {
        ClipboardConfig { enable: true }
    }
}

/// Audio forwarding settings.
#[derive(Debug, Clone)]
pub struct AudioConfig {
    /// Enable RDPSND audio forwarding.
    pub enable: bool,
    /// Audio sample rate in Hz.
    pub sample_rate: u32,
    /// Number of audio channels.
    pub channels: u16,
}

impl Default for AudioConfig {
    /// Stereo CD-rate audio, enabled.
    fn default() -> (r: Self)
        ensures
            r.enable,
            r.sample_rate == 44100,
            r.channels == 2,
    {
        AudioConfig { enable: true, sample_rate: 44100, channels: 2 }
    }
}

/// Video encoding settings.
#[derive(Debug, Clone)]
pub struct EncodeConfig {
    /// Preferred encoder: `vaapi`, `nvenc`, `software` or `auto`.
    pub encoder: String,
    /// H.264 encoding preset.
    pub preset: String,
    /// Target bitrate in bits per second.
    pub bitrate: u32,
}

impl Default for EncodeConfig {
    /// Automatic encoder selection, lowest-latency preset, 10 Mbps.
    fn default() -> (r: Self)
        ensures
            r.encoder@ == "auto"@,
            r.preset@ == "ultrafast"@,
            r.bitrate == 10_000_000,
    {
        EncodeConfig {
            encoder: "auto".to_owned(),
            preset: "ultrafast".to_owned(),
            bitrate: 10_000_000,
        }
    }
}

/// The per-user server configuration.
#[derive(Debug, Clone)]
pub struct ServerConfig {
    /// Host part of the bind address.
    pub bind_host: String,
    /// Port of the bind address.
    pub bind_port: u16,
    /// TLS certificate path (PEM); absent means self-signed.
    pub cert_path: Option<String>,
    /// TLS private key path (PEM); required with `cert_path`.
    pub key_path: Option<String>,
    /// Show a static blue screen instead of live capture.
    pub static_display: bool,
    /// Authentication settings.
    pub auth: AuthConfig,
    /// Capture settings.
    pub capture: CaptureConfig,
    /// Encoding settings.
    pub encode: EncodeConfig,
    /// Clipboard settings.
    pub clipboard: ClipboardConfig,
    /// Audio settings.
    pub audio: AudioConfig,
}

impl Default for ServerConfig {
    /// The documented defaults: all interfaces on the RDP port,
    /// self-signed TLS, live capture, no authentication.
    fn default() -> (r: Self)
        ensures
            r.bind_host@ == "0.0.0.0"@,
            r.bind_port == 3389,
            r.cert_path is None,
            r.key_path is None,
            !r.static_display,
            !r.auth.enable,
            r.capture.fps == 30,
            r.capture.channel_capacity == 4,
            !r.capture.multi_monitor,
            !r.capture.swap_colors,
            r.encode.bitrate == 10_000_000,
            r.clipboard.enable,
            r.audio.enable,
            r.audio.sample_rate == 44100,
            r.audio.channels == 2,
    {
        ServerConfig {
            bind_host: "0.0.0.0".to_owned(),
            bind_port: 3389,
            cert_path: None,
            key_path: None,
            static_display: false,
            auth: AuthConfig::default(),
            capture: CaptureConfig::default(),
            encode: EncodeConfig::default(),
            clipboard: ClipboardConfig::default(),
            audio: AudioConfig::default(),
        }
    }
}

/// Command-line values that override the configuration file.
#[derive(Debug)]
pub struct CliOverrides {
    /// `--addr`: bind host override.
    pub addr: Option<String>,
    /// `--port`: bind port override.
    pub port: Option<u16>,
    /// `--cert`: TLS certificate path override.
    pub cert: Option<String>,
    /// `--key`: TLS key path override.
    pub key: Option<String>,
    /// `--static-display`.
    pub static_display: bool,
    /// `--swap-colors`.
    pub swap_colors: bool,
}

/// A configuration that cannot be used.
#[derive(Debug, Clone, Copy, PartialEq, Eq, Structural)]
pub enum ConfigError {
    /// A certificate was given without its key.
    CertWithoutKey,
    /// A key was given without its certificate.
    KeyWithoutCert,
    /// Authentication is enabled but the username is empty.
    AuthUsernameEmpty,
    /// Authentication is enabled but the password is empty.
    AuthPasswordEmpty,
    /// Binding a non-loopback address requires authentication.
    NonLoopbackWithoutAuth,
}

/// Apply command-line overrides to a loaded configuration.
///
/// Each given override replaces the file's value; the boolean flags
/// only ever switch their feature on.  A certificate without a key (or
/// the reverse) is rejected.
pub fn load_and_merge_config(cfg: ServerConfig, cli: CliOverrides) -> (r: Result<
    ServerConfig,
    ConfigError,
>)
    ensures
        r is Ok <==> !((cli.cert is Some || cfg.cert_path is Some) && (cli.key is None
            && cfg.key_path is None)) && !((cli.key is Some || cfg.key_path is Some) && (cli.cert
            is None && cfg.cert_path is None)),
        r matches Ok(m) ==> {
            &&& m.bind_host == (match cli.addr {
                Some(a) => a,
                None => cfg.bind_host,
            })
            &&& m.bind_port == (match cli.port {
                Some(p) => p,
                None => cfg.bind_port,
            })
            &&& m.cert_path == (match cli.cert {
                Some(c) => Some(c),
                None => cfg.cert_path,
            })
            &&& m.key_path == (match cli.key {
                Some(k) => Some(k),
                None => cfg.key_path,
            })
            &&& m.static_display == (cli.static_display || cfg.static_display)
            &&& m.capture.swap_colors == (cli.swap_colors || cfg.capture.swap_colors)
            &&& m.capture.fps == cfg.capture.fps
            &&& m.capture.channel_capacity == cfg.capture.channel_capacity
            &&& m.capture.multi_monitor == cfg.capture.multi_monitor
            &&& m.auth == cfg.auth
            &&& m.encode == cfg.encode
            &&& m.clipboard == cfg.clipboard
            &&& m.audio == cfg.audio
        },
{
    let ServerConfig {
        bind_host,
        bind_port,
        cert_path,
        key_path,
        static_display,
        auth,
        capture,
        encode,
        clipboard,
        audio,
    } = cfg;
    let bind_host = match cli.addr {
        Some(a) => a,
        None => bind_host,
    };
    let bind_port = match cli.port {
        Some(p) => p,
        None => bind_port,
    };
    let cert_path = match cli.cert {
        Some(c) => Some(c),
        None => cert_path,
    };
    let key_path = match cli.key {
        Some(k) => Some(k),
        None => key_path,
    };
    let static_display = cli.static_display || static_display;
    let capture = CaptureConfig {
        swap_colors: cli.swap_colors || capture.swap_colors,
        ..capture
    };
    if cert_path.is_some() && key_path.is_none() {
        return Err(ConfigError::CertWithoutKey);
    }
    if key_path.is_some() && cert_path.is_none() {
        return Err(ConfigError::KeyWithoutCert);
    }
    Ok(
        ServerConfig {
            bind_host,
            bind_port,
            cert_path,
            key_path,
            static_display,
            auth,
            capture,
            encode,
            clipboard,
            audio,
        },
    )
}

/// Build the NLA credentials demanded by the configuration: none when
/// authentication is off; with it on, the username and password must
/// both be non-empty.
pub fn setup_auth(cfg: &ServerConfig) -> (r: Result<Option<AuthCredentials>, ConfigError>)
    ensures
        !cfg.auth.enable ==> (r matches Ok(o) && o is None),
        cfg.auth.enable && cfg.auth.username@.len() == 0 ==> r == Err::<
            Option<AuthCredentials>,
            ConfigError,
        >(ConfigError::AuthUsernameEmpty),
        cfg.auth.enable && cfg.auth.username@.len() > 0 && cfg.auth.password@.len() == 0 ==> r
            == Err::<Option<AuthCredentials>, ConfigError>(ConfigError::AuthPasswordEmpty),
        cfg.auth.enable && cfg.auth.username@.len() > 0 && cfg.auth.password@.len() > 0 ==> (
        r matches Ok(o) && (o matches Some(c) && c.username@ == cfg.auth.username@ && c.password@
            == cfg.auth.password@ && c.domain == cfg.auth.domain)),
{
    if !cfg.auth.enable {
        return Ok(None);
    }
    if cfg.auth.username.as_str().is_empty() {
        return Err(ConfigError::AuthUsernameEmpty);
    }
    if cfg.auth.password.as_str().is_empty() {
        return Err(ConfigError::AuthPasswordEmpty);
    }
    Ok(
        Some(
            AuthCredentials {
                username: cfg.auth.username.as_str().to_owned(),
                password: cfg.auth.password.as_str().to_owned(),
                domain: cfg.auth.domain.clone(),
            },
        ),
    )
}

/// How the TLS context is to be built.
#[derive(Debug)]
pub enum TlsPlan {
    /// Load the certificate and key from these PEM files.
    FromFiles {
        /// Certificate path.
        cert: String,
        /// Key path.
        key: String,
    },
    /// Generate a self-signed certificate for the bind address.
    SelfSigned,
}

/// Choose the TLS setup: configured PEM files when both are present,
/// a self-signed certificate otherwise.
pub fn setup_tls(cfg: &ServerConfig) -> (r: TlsPlan)
    ensures
        cfg.cert_path matches Some(c) ==> (cfg.key_path matches Some(k) ==> (
        r matches TlsPlan::FromFiles { cert, key } && cert@ == c@ && key@ == k@)),
        !(cfg.cert_path is Some && cfg.key_path is Some) ==> r is SelfSigned,
{
    match (&cfg.cert_path, &cfg.key_path) {
        (Some(cert), Some(key)) => TlsPlan::FromFiles {
            cert: cert.as_str().to_owned(),
            key: key.as_str().to_owned(),
        },
        _ => TlsPlan::SelfSigned,
    }
}

/// The security gate re-checked on every (re)start: without
/// authentication the server may only bind a loopback address.
pub fn enforce_local_only(auth_enabled: bool, bind_is_loopback: bool) -> (r: Result<
    (),
    ConfigError,
>)
    ensures
        r is Ok <==> auth_enabled || bind_is_loopback,
        r is Err ==> r == Err::<(), ConfigError>(ConfigError::NonLoopbackWithoutAuth),
{
    if auth_enabled || bind_is_loopback {
        Ok(())
    } else {
        Err(ConfigError::NonLoopbackWithoutAuth)
    }
}

} // verus!
