//! Core logic of a multi-user RDP server for a Wayland desktop.
//!
//! The crate covers the connection broker (TPKT/X.224 parsing, routing
//! cookie extraction, session registry and port allocation), the EGFX
//! channel state machine with ZGFX framing of outbound payloads, the
//! capture-side frame model (damage, cursors, multi-monitor compositing)
//! and the input-injection tables (scancode mapping, lock-key shadowing).
//! Every executable function carries a contract checked by Verus; the
//! thin process wiring (sockets, process spawning, the media stack)
//! lives outside the library and hands it plain values.
//!
//! The bundled binary is the connection broker alone.  The per-user
//! backend — the program that drives the portal, capture, encoder and
//! RDP wire stacks — is built on the desktop media libraries and ships
//! separately; it consumes this library's display, graphics-channel
//! and input logic through the same plain-value interfaces, which the
//! test suite exercises directly.

pub mod broker;
pub mod capture;
pub mod clipboard;
pub mod compositor;
pub mod config;
pub mod display;
pub mod egfx;
pub mod encode;
pub mod frame;
pub mod input;
pub mod ipc;
pub mod keymap;
pub mod session;
pub mod x224;
pub mod zgfx;
