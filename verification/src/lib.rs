//! Jails, declared and applied.
//!
//! A configuration declares jails: where each gets its files from, what its
//! configuration file holds, what is mounted into it, and what is done in it
//! once it is installed. The library brings a jail to that state, doing only
//! what is needed, and takes a jail away again.
//!
//! The library does not touch the machine. It asks a `host::Host` for what
//! it needs, one request at a time, and the program around it carries the
//! requests out. `jail::Jail` holds the operations, `world` says what a host
//! is taken to be, and `effects` proves what the operations come to on a
//! host that answers truthfully.

pub mod cli;
pub mod cmd;
pub mod effects;
pub mod errors;
pub mod host;
pub mod jail;
pub mod maps;
pub mod pattern;
pub mod pkg;
pub mod provisioner;
pub mod settings;
pub mod source;
pub mod template;
pub mod templates;
pub mod text;
pub mod util;
pub mod volume;
pub mod world;
pub mod zfs;
