//! Locating and installing the FlatBuffers language server for the Zed
//! editor, and labelling what it reports.
//!
//! The executable is looked for on the search path, in the user's
//! settings, and where an earlier install left it; failing all three, the
//! latest release is installed and older installs are pruned. The library
//! decides and the host acts: a [`resolver::Resolution`] hands out one
//! [`protocol::Action`] at a time and takes the [`protocol::Event`] that
//! answers it.
//!
//! - [`resolver`]: the resolution, step by step.
//! - [`host`]: what a resolution comes to with a given host, in one
//!   statement, and the proof that the steps come to just that.
//! - [`laws`]: what holds of every resolution.
//! - [`install`], [`release`], [`platform`], [`prune`]: which file to
//!   fetch, where to put it, and what to delete afterwards.
//! - [`settings`], [`tool`], [`error`], [`command`]: what goes in and what
//!   comes out.
//! - [`labels`]: how completions and symbols are shown.

pub mod command;
pub mod error;
pub mod host;
pub mod install;
pub mod labels;
pub mod laws;
pub mod model;
pub mod platform;
pub mod protocol;
pub mod prune;
pub mod release;
pub mod resolver;
pub mod settings;
pub mod text;
pub mod tool;
