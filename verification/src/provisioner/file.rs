//! The provisioner that copies a file.

use crate::cmd::{command, Cmd, CmdView};
use crate::errors::{outcome, Failure, FailureView, ProvError};
use crate::host::{Event, Host, HostView, Request, RequestView, What};
use crate::jail::{Jail, JailView};
use crate::pattern::{is_match, regex_compiles, regex_matches};
use crate::text::{glue, has_prefix, number, parse_number, starts_with};
use crate::zfs::{change, change_spec};
use vstd::prelude::*;

verus! {

/// A file to copy into a jail, with the mode and owner that it gets there.
#[derive(Clone, Debug)]
pub struct ProvFile {
    /// The name under which the configuration declares the provisioner.
    pub name: String,
    pub source: String,
    pub dest: String,
    pub mode: String,
    pub owner: String,
    pub group: String,
}

/// The owner that holds where none is declared.
pub fn default_user() -> (s: String)
    ensures
        s@ == "root"@,
{
    String::from_str("root")
}

/// The group that holds where none is declared.
pub fn default_group() -> (s: String)
    ensures
        s@ == "wheel"@,
{
    String::from_str("wheel")
}

/// The mode that holds where none is declared.
pub fn default_mode() -> (s: String)
    ensures
        s@ == "644"@,
{
    String::from_str("644")
}

/// What a mode must look like: three octal digits, behind a 0, 1, 2 or 4 if
/// there are four.
pub open spec fn mode_pattern() -> Seq<char> {
    "^(0|1|2|4)?[0-7]{3}$"@
}

/// What is reported where there is no file to copy.
pub open spec fn bad_source(p: ProvFile) -> Seq<char> {
    "file provisioner "@ + p.name@ + ", invalid source: "@ + p.source@
}

/// What is reported where the destination does not start at the root.
pub open spec fn bad_dest(p: ProvFile) -> Seq<char> {
    "file provisioner "@ + p.name@ + ", dest path must be absolute: "@ + p.dest@
}

/// What is reported where the mode is none.
pub open spec fn bad_mode(p: ProvFile) -> Seq<char> {
    "file provisioner "@ + p.name@ + ", invalid file mode: "@ + p.mode@
}

/// Whether a path starts at the root.
pub open spec fn is_absolute(path: Seq<char>) -> bool {
    starts_with(path, "/"@)
}

/// The file to copy must be there.
pub open spec fn validate_source_spec(p: ProvFile, h: HostView) -> (
    HostView,
    Result<(), FailureView>,
) {
    let (h1, r) = h.is_file(p.source@);
    match r {
        Err(e) => (h1, Err(e)),
        Ok(true) => (h1, Ok(())),
        Ok(false) => (h1, Err(FailureView::Prov(bad_source(p)))),
    }
}

/// The destination must start at the root.
pub open spec fn validate_dest_spec(p: ProvFile) -> Result<(), FailureView> {
    if is_absolute(p.dest@) {
        Ok(())
    } else {
        Err(FailureView::Prov(bad_dest(p)))
    }
}

/// The mode must match the pattern for modes.
pub open spec fn validate_mode_spec(p: ProvFile) -> Result<(), FailureView> {
    if !regex_compiles(mode_pattern()) {
        Err(FailureView::Pattern)
    } else if regex_matches(mode_pattern(), p.mode@) {
        Ok(())
    } else {
        Err(FailureView::Prov(bad_mode(p)))
    }
}

/// What the answer of the pattern matcher means for a mode.
pub open spec fn judge_mode(p: ProvFile, compiled: bool, matched: bool) -> Result<
    (),
    FailureView,
> {
    if !compiled {
        Err(FailureView::Pattern)
    } else if matched {
        Ok(())
    } else {
        Err(FailureView::Prov(bad_mode(p)))
    }
}

/// Checking the settings: the source, then the destination, then the mode.
pub open spec fn validate_spec(p: ProvFile, h: HostView) -> (HostView, Result<(), FailureView>) {
    let (h1, r) = validate_source_spec(p, h);
    match r {
        Err(e) => (h1, Err(e)),
        Ok(_) => match validate_dest_spec(p) {
            Err(e) => (h1, Err(e)),
            Ok(_) => (h1, validate_mode_spec(p)),
        },
    }
}

/// Where the file goes: the destination, below the jail's directory.
pub open spec fn full_dest(p: ProvFile, j: JailView) -> Seq<char> {
    j.mountpoint + p.dest@
}

/// The command that sets the owner, run with the jail's directory as root.
pub open spec fn chown(p: ProvFile, j: JailView) -> CmdView {
    command("chroot"@, seq![j.mountpoint, "chown"@, p.owner@ + ":"@ + p.group@, p.dest@])
}

/// A change to the jail's files that is told to the user and made unless
/// this is a dry run.
pub open spec fn step(j: JailView, h: HostView, what: What, details: Seq<Seq<char>>, request:
    RequestView) -> (HostView, Result<(), FailureView>) {
    let (h1, r) = h.note(what, j.name, details, j.noop);
    match r {
        Err(e) => (h1, Err(e)),
        Ok(_) => if j.noop {
            (h1, Ok(()))
        } else {
            h1.change(request)
        },
    }
}

/// Running the provisioner: the file is copied to its place below the
/// jail's directory, its mode is set, and its owner. The user is told each
/// step; in a dry run none is made. A destination that does not start at the
/// root fails before anything is copied; a mode that is no octal number
/// fails once the file is copied.
pub open spec fn provision_spec(p: ProvFile, j: JailView, h: HostView) -> (
    HostView,
    Result<(), FailureView>,
) {
    let (h1, r1) = h.note(What::RunningFile, j.name, seq![p.name@], false);
    match r1 {
        Err(e) => (h1, Err(e)),
        Ok(_) => if !is_absolute(p.dest@) {
            (h1, Err(FailureView::Prov(bad_dest(p))))
        } else {
            let (h2, r2) = step(
                j,
                h1,
                What::Copying,
                seq![p.source@, full_dest(p, j)],
                RequestView::CopyFile(p.source@, full_dest(p, j)),
            );
            match r2 {
                Err(e) => (h2, Err(e)),
                Ok(_) => match number(p.mode@, 8) {
                    None => (h2, Err(FailureView::Prov(bad_mode(p)))),
                    Some(mode) => if mode > u32::MAX {
                        (h2, Err(FailureView::Prov(bad_mode(p))))
                    } else {
                        let (h3, r3) = step(
                            j,
                            h2,
                            What::SettingMode,
                            seq![p.mode@],
                            RequestView::SetMode(full_dest(p, j), mode as u32),
                        );
                        match r3 {
                            Err(e) => (h3, Err(e)),
                            Ok(_) => {
                                let (h4, r4) = h3.note(
                                    What::SettingOwner,
                                    j.name,
                                    seq![p.owner@ + ":"@ + p.group@],
                                    j.noop,
                                );
                                match r4 {
                                    Err(e) => (h4, Err(e)),
                                    Ok(_) => if j.noop {
                                        (h4, Ok(()))
                                    } else {
                                        change_spec(
                                            h4,
                                            chown(p, j),
                                            Event::Changed(RequestView::Run(chown(p, j))),
                                        )
                                    },
                                }
                            },
                        }
                    },
                },
            }
        },
    }
}

fn failure(kind: &str, name: &str, value: &str) -> (e: Failure)
    ensures
        e@ == FailureView::Prov("file provisioner "@ + name@ + kind@ + value@),
{
    let mut message = String::from_str("file provisioner ");
    message.append(name);
    message.append(kind);
    message.append(value);
    Failure::Prov(ProvError(message))
}

impl ProvFile {
    /// Copies the file into the jail and sets its mode and owner.
    pub fn provision(&self, jail: &Jail, host: &mut Host) -> (r: Result<(), Failure>)
        ensures
            (final(host)@, outcome(r)) == provision_spec(*self, jail@, old(host)@),
    {
        let noop = *jail.noop();
        let name = jail.name().as_str();
        host.note1(What::RunningFile, name, self.name.as_str(), false)?;
        if !has_prefix(self.dest.as_str(), "/") {
            return Err(
                failure(", dest path must be absolute: ", self.name.as_str(), self.dest.as_str()),
            );
        }
        let dest = glue(jail.mountpoint().as_str(), self.dest.as_str());
        host.note2(What::Copying, name, self.source.as_str(), dest.as_str(), noop)?;
        if !noop {
            host.change(Request::CopyFile(self.source.clone(), dest.clone()))?;
        }
        let mode = match parse_number(self.mode.as_str(), 8, 0xffff_ffff) {
            Some(mode) => mode as u32,
            None => {
                return Err(
                    failure(", invalid file mode: ", self.name.as_str(), self.mode.as_str()),
                );
            },
        };
        host.note1(What::SettingMode, name, self.mode.as_str(), noop)?;
        if !noop {
            host.change(Request::SetMode(dest, mode))?;
        }
        let mut owner = self.owner.clone();
        owner.append(":");
        owner.append(self.group.as_str());
        host.note1(What::SettingOwner, name, owner.as_str(), noop)?;
        if noop {
            Ok(())
        } else {
            let c = Cmd::new("chroot").arg(jail.mountpoint().as_str()).arg("chown").arg(
                owner.as_str(),
            ).arg(self.dest.as_str());
            assert(c@.args =~= seq![
                jail@.mountpoint,
                "chown"@,
                self.owner@ + ":"@ + self.group@,
                self.dest@,
            ]);
            change(host, c, Ghost(Event::Changed(RequestView::Run(chown(*self, jail@)))))
        }
    }

    /// Checks the settings: there must be a file to copy, the destination
    /// must start at the root, and the mode must be one.
    pub fn validate(&self, host: &mut Host) -> (r: Result<(), Failure>)
        ensures
            (final(host)@, outcome(r)) == validate_spec(*self, old(host)@),
    {
        self.validate_source(host)?;
        self.validate_dest()?;
        self.validate_mode()
    }

    /// Checks that there is a file to copy.
    pub fn validate_source(&self, host: &mut Host) -> (r: Result<(), Failure>)
        ensures
            (final(host)@, outcome(r)) == validate_source_spec(*self, old(host)@),
    {
        if host.is_file(self.source.as_str())? {
            Ok(())
        } else {
            Err(failure(", invalid source: ", self.name.as_str(), self.source.as_str()))
        }
    }

    /// Checks that the destination starts at the root.
    pub fn validate_dest(&self) -> (r: Result<(), Failure>)
        ensures
            outcome(r) == validate_dest_spec(*self),
    {
        if has_prefix(self.dest.as_str(), "/") {
            Ok(())
        } else {
            Err(failure(", dest path must be absolute: ", self.name.as_str(), self.dest.as_str()))
        }
    }

    /// Checks that the mode looks like one.
    pub fn validate_mode(&self) -> (r: Result<(), Failure>)
        ensures
            outcome(r) == validate_mode_spec(*self),
    {
        match is_match("^(0|1|2|4)?[0-7]{3}$", self.mode.as_str()) {
            Ok(matched) => self.judge_mode(true, matched),
            Err(_) => self.judge_mode(false, false),
        }
    }

    /// What the answer of the pattern matcher means for the mode: the
    /// pattern must have compiled and the mode must have matched.
    pub fn judge_mode(&self, compiled: bool, matched: bool) -> (r: Result<(), Failure>)
        ensures
            outcome(r) == judge_mode(*self, compiled, matched),
    {
        if !compiled {
            Err(Failure::Pattern)
        } else if matched {
            Ok(())
        } else {
            Err(failure(", invalid file mode: ", self.name.as_str(), self.mode.as_str()))
        }
    }
}

} // verus!
