//! Sources: how a new jail gets its files.

use crate::errors::{outcome, Failure, FailureView};
use crate::host::{Host, HostView};
use crate::jail::{Jail, JailView};
use crate::source::freebsd::FreeBSD;
use crate::source::zfs_clone::ZfsClone;
use vstd::prelude::*;

pub mod freebsd;
pub mod zfs_clone;

verus! {

/// The way a jail is installed.
#[derive(Clone, Debug)]
pub enum Source {
    /// From the archives of a release.
    FreeBSD(FreeBSD),
    /// As a clone of another jail's dataset.
    ZfsClone(ZfsClone),
}

/// Installing a jail from a source of either kind.
pub open spec fn install_spec(s: Source, j: JailView, h: HostView) -> (
    HostView,
    Result<(), FailureView>,
) {
    match s {
        Source::FreeBSD(s) => crate::source::freebsd::install_spec(s, j, h),
        Source::ZfsClone(s) => crate::source::zfs_clone::install_spec(s, j, h),
    }
}

impl Source {
    /// Installs the jail: makes its dataset and fills it.
    pub fn install(&self, jail: &Jail, host: &mut Host) -> (r: Result<(), Failure>)
        ensures
            (final(host)@, outcome(r)) == install_spec(*self, jail@, old(host)@),
    {
        match self {
            Source::FreeBSD(s) => s.install(jail, host),
            Source::ZfsClone(s) => s.install(jail, host),
        }
    }

    /// Whether the source's settings can work. Those of every source can.
    pub fn validate(&self) -> (r: Result<(), Failure>)
        ensures
            r is Ok,
    {
        match self {
            Source::FreeBSD(s) => s.validate(),
            Source::ZfsClone(s) => s.validate(),
        }
    }
}

} // verus!
