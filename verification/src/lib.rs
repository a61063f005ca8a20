//! A library for turning a foreground process into a detached background
//! daemon: fork and parent-exit, new session, umask application, working
//! directory change, standard-stream redirection, optional pid-file creation,
//! optional privilege drop, and optional lifecycle callbacks.
//!
//! The ordered, fallible sequence of OS transitions is modelled as a verified
//! state machine in [`engine`]; a thin unverified driver performs each
//! requested [`engine::Action`] and reports its outcome back as an
//! [`engine::Event`].

pub mod daemon;
pub mod engine;
pub mod decimal;
pub mod error;
pub mod ident;
pub mod laws;
pub mod process;

pub use crate::daemon::Daemon;
pub use crate::error::DaemonError;
pub use crate::ident::Group;
pub use crate::ident::GroupRecord;
pub use crate::ident::PasswdRecord;
pub use crate::ident::User;
