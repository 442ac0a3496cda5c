//! The files that are written for a jail.

pub mod fstab;
pub mod jail_conf;
