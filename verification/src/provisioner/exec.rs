//! The provisioner that runs a command.

use crate::cmd::{command, Cmd, CmdView};
use crate::errors::{outcome, Failure, FailureView};
use crate::host::{Host, HostView, What};
use crate::jail::{Jail, JailView};
use crate::text::{split, split_at_char};
use vstd::prelude::*;

verus! {

/// A command to run in a jail.
#[derive(Clone, Debug)]
pub struct Exec {
    /// The name under which the configuration declares the provisioner.
    pub name: String,
    /// The command and its arguments, with a space between each two.
    pub cmd: String,
    pub mode: ExecMode,
}

/// How the command gets into the jail.
#[derive(Clone, Debug)]
pub enum ExecMode {
    /// Through the jail manager, in the running jail.
    Jexec,
    /// With the jail's directory as the root directory.
    Chroot,
}

/// The mode that holds where none is declared.
pub fn default_mode() -> (m: ExecMode)
    ensures
        m is Jexec,
{
    ExecMode::Jexec
}

/// The command that takes the provisioner's command into the jail: the words
/// of the command, cut at each space, behind `jexec` and the jail's name, or
/// behind `chroot` and the jail's directory.
pub open spec fn carrier(p: Exec, j: JailView) -> CmdView {
    match p.mode {
        ExecMode::Jexec => command("jexec"@, seq![j.name] + split(p.cmd@, ' ')),
        ExecMode::Chroot => command("chroot"@, seq![j.mountpoint] + split(p.cmd@, ' ')),
    }
}

/// Running the provisioner: the user is told its name and its command; the
/// command is run in the jail unless this is a dry run.
pub open spec fn provision_spec(p: Exec, j: JailView, h: HostView) -> (
    HostView,
    Result<(), FailureView>,
) {
    let (h1, r1) = h.note(What::RunningExec, j.name, seq![p.name@], false);
    match r1 {
        Err(e) => (h1, Err(e)),
        Ok(_) => {
            let (h2, r2) = h1.note(What::RunningCommand, j.name, seq![p.cmd@], j.noop);
            match r2 {
                Err(e) => (h2, Err(e)),
                Ok(_) => if j.noop {
                    (h2, Ok(()))
                } else {
                    h2.stream_change(carrier(p, j))
                },
            }
        },
    }
}

impl Exec {
    /// The command that takes the provisioner's command into the jail.
    pub fn carrier(&self, jail: &Jail) -> (c: Cmd)
        ensures
            c@ == carrier(*self, jail@),
    {
        let args = split_at_char(self.cmd.as_str(), ' ');
        match self.mode {
            ExecMode::Jexec => {
                let c = Cmd::new("jexec").arg(jail.name().as_str()).args(&args);
                assert(c@.args =~= seq![jail@.name] + split(self.cmd@, ' '));
                c
            },
            ExecMode::Chroot => {
                let c = Cmd::new("chroot").arg(jail.mountpoint().as_str()).args(&args);
                assert(c@.args =~= seq![jail@.mountpoint] + split(self.cmd@, ' '));
                c
            },
        }
    }

    /// Runs the command in the jail.
    pub fn provision(&self, jail: &Jail, host: &mut Host) -> (r: Result<(), Failure>)
        ensures
            (final(host)@, outcome(r)) == provision_spec(*self, jail@, old(host)@),
    {
        host.note1(What::RunningExec, jail.name().as_str(), self.name.as_str(), false)?;
        host.note1(What::RunningCommand, jail.name().as_str(), self.cmd.as_str(), *jail.noop())?;
        if *jail.noop() {
            Ok(())
        } else {
            let c = self.carrier(jail);
            host.stream_change(&c)
        }
    }

    /// Whether the settings can work: they always can.
    pub fn validate(&self) -> (r: Result<(), Failure>)
        ensures
            r is Ok,
    {
        Ok(())
    }
}

} // verus!
