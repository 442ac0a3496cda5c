//! Provisioners: what is done in a jail once it is installed.

use crate::errors::{outcome, Failure, FailureView};
use crate::host::{Host, HostView};
use crate::jail::{Jail, JailView};
use crate::provisioner::exec::Exec;
use crate::provisioner::file::ProvFile;
use crate::provisioner::puppet::Puppet;
use crate::provisioner::test::Test;
use vstd::prelude::*;

pub mod exec;
pub mod file;
pub mod puppet;

verus! {

/// One step of provisioning.
#[derive(Clone, Debug)]
pub enum Provisioner {
    /// Copy a file into the jail.
    File(ProvFile),
    /// Run a command in the jail.
    Exec(Exec),
    /// Do nothing.
    Test(Test),
    /// Apply a Puppet manifest in the jail.
    Puppet(Puppet),
}

/// Running a provisioner of any kind in a jail.
pub open spec fn provision_spec(p: Provisioner, j: JailView, h: HostView) -> (
    HostView,
    Result<(), FailureView>,
) {
    match p {
        Provisioner::File(p) => crate::provisioner::file::provision_spec(p, j, h),
        Provisioner::Exec(p) => crate::provisioner::exec::provision_spec(p, j, h),
        Provisioner::Test(p) => crate::provisioner::test::provision_spec(p, j, h),
        Provisioner::Puppet(p) => crate::provisioner::puppet::provision_spec(p, j, h),
    }
}

/// Checking the settings of a provisioner of any kind.
pub open spec fn validate_spec(p: Provisioner, h: HostView) -> (HostView, Result<(), FailureView>) {
    match p {
        Provisioner::File(p) => crate::provisioner::file::validate_spec(p, h),
        Provisioner::Exec(p) => (h, Ok(())),
        Provisioner::Test(p) => (h, Ok(())),
        Provisioner::Puppet(p) => crate::provisioner::puppet::validate_spec(p, h),
    }
}

impl Provisioner {
    /// Runs the provisioner in the jail.
    pub fn provision(&self, jail: &Jail, host: &mut Host) -> (r: Result<(), Failure>)
        ensures
            (final(host)@, outcome(r)) == provision_spec(*self, jail@, old(host)@),
    {
        match self {
            Provisioner::File(p) => p.provision(jail, host),
            Provisioner::Exec(p) => p.provision(jail, host),
            Provisioner::Test(p) => p.provision(jail, host),
            Provisioner::Puppet(p) => p.provision(jail, host),
        }
    }

    /// Checks that the provisioner's settings can work.
    pub fn validate(&self, host: &mut Host) -> (r: Result<(), Failure>)
        ensures
            (final(host)@, outcome(r)) == validate_spec(*self, old(host)@),
    {
        match self {
            Provisioner::File(p) => p.validate(host),
            Provisioner::Exec(p) => p.validate(),
            Provisioner::Test(p) => p.validate(),
            Provisioner::Puppet(p) => p.validate(host),
        }
    }
}

} // verus!
