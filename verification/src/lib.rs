//! The decisions of a desktop shell around DeepSeek Harness (`dsh`): when to start and stop
//! its processes, how to install and update its runtime, which LAN address and access token
//! the forwarder uses, and when to chime as sessions finish.

pub mod cert;
pub mod dsh;
pub mod json;
pub mod notify;
pub mod poll;
pub mod runtime;
pub mod text;
pub mod tray;
pub mod updater;

pub use text::strip_verbatim;
