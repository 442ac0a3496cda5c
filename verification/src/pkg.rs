//! Packages in a jail, driven through the `pkg` tool.

use crate::cmd::{exec_spec, Cmd, CmdView};
use crate::errors::{outcome, Failure, FailureView};
use crate::host::{Event, Host, HostView, RequestView};
use crate::zfs::{change, change_spec};
use vstd::prelude::*;

verus! {

/// A package, and the directory of the jail that it belongs in.
pub struct Pkg {
    name: String,
    chroot: String,
    env: Vec<(String, String)>,
}

/// What a `Pkg` holds.
pub struct PkgView {
    pub name: Seq<char>,
    pub chroot: Seq<char>,
}

impl View for Pkg {
    type V = PkgView;

    closed spec fn view(&self) -> PkgView {
        PkgView { name: self.name@, chroot: self.chroot@ }
    }
}

/// The variables that keep the tool from asking questions.
pub open spec fn always_yes() -> Seq<(Seq<char>, Seq<char>)> {
    seq![("ASSUME_ALWAYS_YES"@, "yes"@), ("DEFAULT_ALWAYS_YES"@, "yes"@)]
}

impl PkgView {
    /// The tool, told to work in the jail's directory and to do `verb` with
    /// the package.
    pub open spec fn tool(self, verb: Seq<char>) -> CmdView {
        CmdView {
            program: "pkg"@,
            args: seq!["-c"@, self.chroot, verb, self.name],
            envs: always_yes(),
            dir: None,
        }
    }

    /// Installing the package.
    pub open spec fn install(self, h: HostView) -> (HostView, Result<(), FailureView>) {
        change_spec(
            h,
            self.tool("install"@),
            Event::Changed(RequestView::Run(self.tool("install"@))),
        )
    }

    /// Whether the package is installed: the tool is asked for it. It is
    /// where the tool succeeds; it is not where the tool exits with 69 or
    /// 70; any other failure stands.
    pub open spec fn is_installed(self, h: HostView) -> (HostView, Result<bool, FailureView>) {
        let (h1, r) = exec_spec(h, self.tool("info"@));
        match r {
            Ok(_) => (h1, Ok(true)),
            Err(FailureView::Run(e)) => if e.code == Some(70i32) || e.code == Some(69i32) {
                (h1, Ok(false))
            } else {
                (h1, Err(FailureView::Run(e)))
            },
            Err(e) => (h1, Err(e)),
        }
    }
}

impl Pkg {
    /// The package `name` in the jail whose files are in `chroot`.
    pub fn new(name: &str, chroot: &str) -> (p: Pkg)
        ensures
            p@ == (PkgView { name: name@, chroot: chroot@ }),
    {
        let mut env: Vec<(String, String)> = Vec::new();
        env.push((String::from_str("ASSUME_ALWAYS_YES"), String::from_str("yes")));
        env.push((String::from_str("DEFAULT_ALWAYS_YES"), String::from_str("yes")));
        Pkg { name: String::from_str(name), chroot: String::from_str(chroot), env }
    }

    fn tool(&self, verb: &str) -> (c: Cmd)
        ensures
            c@ == self@.tool(verb@),
    {
        let mut env: Vec<(String, String)> = Vec::new();
        env.push((String::from_str("ASSUME_ALWAYS_YES"), String::from_str("yes")));
        env.push((String::from_str("DEFAULT_ALWAYS_YES"), String::from_str("yes")));
        let c = Cmd::new("pkg").arg("-c").arg(self.chroot.as_str()).arg(verb).arg(
            self.name.as_str(),
        ).envs(&env);
        assert(c@.args =~= seq!["-c"@, self@.chroot, verb@, self@.name]);
        assert(c@.envs =~= always_yes());
        c
    }

    /// Installs the package.
    pub fn install(&self, host: &mut Host) -> (r: Result<(), Failure>)
        ensures
            (final(host)@, outcome(r)) == self@.install(old(host)@),
    {
        let c = self.tool("install");
        change(host, c, Ghost(Event::Changed(RequestView::Run(self@.tool("install"@)))))
    }

    /// Whether the package is installed.
    pub fn is_installed(&self, host: &mut Host) -> (r: Result<bool, Failure>)
        ensures
            (final(host)@, outcome(r)) == self@.is_installed(old(host)@),
    {
        match self.tool("info").exec(host) {
            Ok(_) => Ok(true),
            Err(Failure::Run(e)) => {
                let absent = match e.code {
                    Some(code) => code == 70 || code == 69,
                    None => false,
                };
                if absent {
                    Ok(false)
                } else {
                    Err(Failure::Run(e))
                }
            },
            Err(e) => Err(e),
        }
    }
}

} // verus!
