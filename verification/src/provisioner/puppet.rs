//! The provisioner that applies a Puppet manifest.

use crate::cmd::{command, Cmd, CmdView};
use crate::errors::{outcome, Failure, FailureView, ProvError};
use crate::host::{Event, Host, HostView, Request, RequestView, What};
use crate::jail::{Jail, JailView};
use crate::pkg::{Pkg, PkgView};
use crate::provisioner::file::is_absolute;
use crate::text::{glue, has_prefix, same, split, split_at_char, views};
use crate::zfs::{change, change_spec};
use vstd::prelude::*;

verus! {

/// A directory with a Puppet manifest, and how to apply it.
#[derive(Clone, Debug)]
pub struct Puppet {
    /// The name under which the configuration declares the provisioner.
    pub name: String,
    /// The directory that holds the manifest.
    pub path: String,
    /// The manifest's file, from that directory on.
    pub manifest_file: String,
    pub modulepath: Option<String>,
    pub hiera_config: Option<String>,
    pub extra_args: Vec<String>,
    /// The directory in the jail that the manifest is copied to.
    pub tmp_dir: String,
    pub puppet_version: String,
}

/// The manifest's file where none is declared.
pub fn default_manifest_file() -> (s: String)
    ensures
        s@ == "init.pp"@,
{
    String::from_str("init.pp")
}

/// The directory in the jail where none is declared.
pub fn default_tmp_dir() -> (s: String)
    ensures
        s@ == "/var/rj"@,
{
    String::from_str("/var/rj")
}

/// The version of Puppet where none is declared.
pub fn default_version() -> (s: String)
    ensures
        s@ == "6"@,
{
    String::from_str("6")
}

/// The further arguments where none are declared.
pub fn default_extra_args() -> (v: Vec<String>)
    ensures
        v@.len() == 0,
{
    Vec::new()
}

/// A file or directory below another.
pub open spec fn below(dir: Seq<char>, name: Seq<char>) -> Seq<char> {
    dir + "/"@ + name
}

/// What is reported where the manifest's directory is none.
pub open spec fn bad_path(p: Puppet) -> Seq<char> {
    "puppet provisioner, path: "@ + p.path@ + " doesn't exist or is not a directory"@
}

/// What is reported where the manifest's file is none.
pub open spec fn bad_manifest(p: Puppet) -> Seq<char> {
    "puppet provisioner, manifest file doesn't exist in: "@ + below(p.path@, p.manifest_file@)
        + " or is not a file"@
}

/// What is reported where the Hiera configuration is no file.
pub open spec fn bad_hiera(p: Puppet, hiera: Seq<char>) -> Seq<char> {
    "puppet provisioner, hiera config file doesn't exist in: "@ + below(p.path@, hiera)
        + " or is not a file"@
}

/// What is reported where the version of Puppet is not one that is known.
pub open spec fn bad_version(p: Puppet) -> Seq<char> {
    "puppet provisioner, puppet version: "@ + p.puppet_version@ + " is not supported"@
}

/// What is reported where the directory in the jail does not start at the
/// root.
pub open spec fn bad_tmp_dir(p: Puppet) -> Seq<char> {
    "puppet provisioner, tmp_dir must be absolute: "@ + p.tmp_dir@
}

/// Whether the version of Puppet is one that is known.
pub open spec fn known_version(version: Seq<char>) -> bool {
    version == "5"@ || version == "6"@
}

/// A check that a file or directory is there.
pub open spec fn required(found: (HostView, Result<bool, FailureView>), message: Seq<char>) -> (
    HostView,
    Result<(), FailureView>,
) {
    match found.1 {
        Err(e) => (found.0, Err(e)),
        Ok(true) => (found.0, Ok(())),
        Ok(false) => (found.0, Err(FailureView::Prov(message))),
    }
}

/// The manifest's directory must be one.
pub open spec fn validate_path_spec(p: Puppet, h: HostView) -> (HostView, Result<(), FailureView>) {
    required(h.is_dir(p.path@), bad_path(p))
}

/// The manifest's file must be one.
pub open spec fn validate_manifest_file_spec(p: Puppet, h: HostView) -> (
    HostView,
    Result<(), FailureView>,
) {
    required(h.is_file(below(p.path@, p.manifest_file@)), bad_manifest(p))
}

/// The Hiera configuration, if one is declared, must be a file.
pub open spec fn validate_hiera_config_spec(p: Puppet, h: HostView) -> (
    HostView,
    Result<(), FailureView>,
) {
    match p.hiera_config {
        Some(hiera) => required(h.is_file(below(p.path@, hiera@)), bad_hiera(p, hiera@)),
        None => (h, Ok(())),
    }
}

/// The version of Puppet must be one that is known.
pub open spec fn validate_puppet_version_spec(p: Puppet) -> Result<(), FailureView> {
    if known_version(p.puppet_version@) {
        Ok(())
    } else {
        Err(FailureView::Prov(bad_version(p)))
    }
}

/// Checking the settings: the directory, the manifest, the Hiera
/// configuration, the version, up to the first that fails.
pub open spec fn validate_spec(p: Puppet, h: HostView) -> (HostView, Result<(), FailureView>) {
    let (h1, r1) = validate_path_spec(p, h);
    match r1 {
        Err(e) => (h1, Err(e)),
        Ok(_) => {
            let (h2, r2) = validate_manifest_file_spec(p, h1);
            match r2 {
                Err(e) => (h2, Err(e)),
                Ok(_) => {
                    let (h3, r3) = validate_hiera_config_spec(p, h2);
                    match r3 {
                        Err(e) => (h3, Err(e)),
                        Ok(_) => (h3, validate_puppet_version_spec(p)),
                    }
                },
            }
        },
    }
}

/// The manifest's directory as the jail sees it: below the directory for
/// manifests, under its own name.
pub open spec fn inside(p: Puppet) -> Seq<char> {
    below(p.tmp_dir@, split(p.path@, '/').last())
}

/// The manifest's directory in the jail as the host sees it.
pub open spec fn outside(p: Puppet, j: JailView) -> Seq<char> {
    j.mountpoint + inside(p)
}

/// The script that goes to the manifest's directory and runs its arguments
/// as a command there.
pub open spec fn wrapper_text(p: Puppet) -> Seq<char> {
    "#!/bin/sh\ncd "@ + inside(p) + " && $@\n"@
}

/// The command that copies the manifest's directory into the jail.
pub open spec fn rsync(p: Puppet, j: JailView) -> CmdView {
    command("rsync"@, seq!["-r"@, "--delete"@, p.path@, j.mountpoint + p.tmp_dir@])
}

/// The command that fetches the modules that the manifest asks for.
pub open spec fn r10k(p: Puppet, j: JailView) -> CmdView {
    command(
        "jexec"@,
        seq![j.name, below(inside(p), "wrapper.sh"@), "r10k"@, "puppetfile"@, "install"@],
    )
}

/// What a setting adds to the command: the option and its value, if it is
/// set.
pub open spec fn option(name: Seq<char>, value: Option<String>) -> Seq<Seq<char>> {
    match value {
        Some(v) => seq![name, v@],
        None => Seq::empty(),
    }
}

/// The command that applies the manifest: in the jail, through the script,
/// with the module path and the Hiera configuration where they are set, the
/// further arguments, the remark that this is a dry run where it is one, and
/// the manifest's file.
pub open spec fn apply(p: Puppet, j: JailView) -> CmdView {
    command(
        "jexec"@,
        seq![j.name, below(inside(p), "wrapper.sh"@), "puppet"@, "apply"@] + option(
            "--modulepath"@,
            p.modulepath,
        ) + option("--hiera_config"@, p.hiera_config) + views(p.extra_args@) + (if j.noop {
            seq!["--noop"@]
        } else {
            Seq::empty()
        }) + seq![p.manifest_file@],
    )
}

/// Making sure that a package is in the jail: it is installed unless it is
/// there.
pub open spec fn ensure_pkg_spec(j: JailView, h: HostView, name: Seq<char>) -> (
    HostView,
    Result<(), FailureView>,
) {
    let pkg = PkgView { name, chroot: j.mountpoint };
    let (h1, r1) = pkg.is_installed(h);
    match r1 {
        Err(e) => (h1, Err(e)),
        Ok(true) => (h1, Ok(())),
        Ok(false) => {
            let (h2, r2) = h1.note(What::InstallingPackage, j.name, seq![name], j.noop);
            match r2 {
                Err(e) => (h2, Err(e)),
                Ok(_) => pkg.install(h2),
            }
        },
    }
}

/// Copying the manifest's directory into the jail: the directory for
/// manifests is made and closed to all but its owner, then `rsync` copies.
pub open spec fn copy_manifest_spec(p: Puppet, j: JailView, h: HostView) -> (
    HostView,
    Result<(), FailureView>,
) {
    let dest = j.mountpoint + p.tmp_dir@;
    let (h1, r1) = h.change(RequestView::CreateDirAll(dest));
    match r1 {
        Err(e) => (h1, Err(e)),
        Ok(_) => {
            let (h2, r2) = h1.change(RequestView::SetMode(dest, 0o700));
            match r2 {
                Err(e) => (h2, Err(e)),
                Ok(_) => change_spec(
                    h2,
                    rsync(p, j),
                    Event::Changed(RequestView::Run(rsync(p, j))),
                ),
            }
        },
    }
}

/// Writing the script and making it a program.
pub open spec fn make_wrapper_spec(p: Puppet, j: JailView, h: HostView) -> (
    HostView,
    Result<(), FailureView>,
) {
    let path = below(outside(p, j), "wrapper.sh"@);
    let (h1, r1) = h.change(RequestView::WriteFile(path, wrapper_text(p)));
    match r1 {
        Err(e) => (h1, Err(e)),
        Ok(_) => h1.change(RequestView::SetMode(path, 0o755)),
    }
}

/// Fetching the modules that the manifest asks for.
pub open spec fn run_r10k_spec(p: Puppet, j: JailView, h: HostView) -> (
    HostView,
    Result<(), FailureView>,
) {
    let (h1, r1) = ensure_pkg_spec(j, h, "rubygem-r10k"@);
    match r1 {
        Err(e) => (h1, Err(e)),
        Ok(_) => h1.stream_change(r10k(p, j)),
    }
}

/// What follows once the manifest is in the jail: the script is written; the
/// modules are fetched if the manifest brings a `Puppetfile`; the manifest
/// is applied.
pub open spec fn run_spec(p: Puppet, j: JailView, h: HostView) -> (
    HostView,
    Result<(), FailureView>,
) {
    let (h1, r1) = make_wrapper_spec(p, j, h);
    match r1 {
        Err(e) => (h1, Err(e)),
        Ok(_) => {
            let (h2, r2) = h1.is_file(below(outside(p, j), "Puppetfile"@));
            match r2 {
                Err(e) => (h2, Err(e)),
                Ok(found) => {
                    let (h3, r3) = if found {
                        run_r10k_spec(p, j, h2)
                    } else {
                        (h2, Ok(()))
                    };
                    match r3 {
                        Err(e) => (h3, Err(e)),
                        Ok(_) => h3.stream_change(apply(p, j)),
                    }
                },
            }
        },
    }
}

/// Running the provisioner. The user is told. In a dry run that is all.
/// Else the directory in the jail must start at the root; Puppet is
/// installed in the jail unless it is there; the manifest is copied into the
/// jail and applied there.
pub open spec fn provision_spec(p: Puppet, j: JailView, h: HostView) -> (
    HostView,
    Result<(), FailureView>,
) {
    let (h1, r1) = h.note(What::RunningPuppet, j.name, seq![p.name@], j.noop);
    match r1 {
        Err(e) => (h1, Err(e)),
        Ok(_) => if j.noop {
            (h1, Ok(()))
        } else if !is_absolute(p.tmp_dir@) {
            (h1, Err(FailureView::Prov(bad_tmp_dir(p))))
        } else {
            let (h2, r2) = ensure_pkg_spec(j, h1, "puppet"@ + p.puppet_version@);
            match r2 {
                Err(e) => (h2, Err(e)),
                Ok(_) => {
                    let (h3, r3) = copy_manifest_spec(p, j, h2);
                    match r3 {
                        Err(e) => (h3, Err(e)),
                        Ok(_) => run_spec(p, j, h3),
                    }
                },
            }
        },
    }
}

fn failure(before: &str, value: &str, after: &str) -> (e: Failure)
    ensures
        e@ == FailureView::Prov(before@ + value@ + after@),
{
    let mut message = String::from_str(before);
    message.append(value);
    message.append(after);
    Failure::Prov(ProvError(message))
}

fn path_below(dir: &str, name: &str) -> (s: String)
    ensures
        s@ == below(dir@, name@),
{
    let mut s = String::from_str(dir);
    s.append("/");
    s.append(name);
    s
}

fn must_be(found: bool, e: Failure) -> (r: Result<(), Failure>)
    ensures
        found ==> r is Ok,
        !found ==> r == Err::<(), Failure>(e),
{
    if found {
        Ok(())
    } else {
        Err(e)
    }
}

/// Makes sure that a package is in the jail.
pub fn ensure_pkg(jail: &Jail, host: &mut Host, name: &str) -> (r: Result<(), Failure>)
    ensures
        (final(host)@, outcome(r)) == ensure_pkg_spec(jail@, old(host)@, name@),
{
    let pkg = Pkg::new(name, jail.mountpoint().as_str());
    if !pkg.is_installed(host)? {
        host.note1(What::InstallingPackage, jail.name().as_str(), name, *jail.noop())?;
        pkg.install(host)?;
    }
    Ok(())
}

impl Puppet {
    /// Applies the manifest in the jail.
    pub fn provision(&self, jail: &Jail, host: &mut Host) -> (r: Result<(), Failure>)
        ensures
            (final(host)@, outcome(r)) == provision_spec(*self, jail@, old(host)@),
    {
        host.note1(What::RunningPuppet, jail.name().as_str(), self.name.as_str(), *jail.noop())?;
        if *jail.noop() {
            return Ok(());
        }
        if !has_prefix(self.tmp_dir.as_str(), "/") {
            proof {
                reveal_strlit("");
                assert(bad_tmp_dir(*self) + ""@ == bad_tmp_dir(*self));
            }
            return Err(
                failure("puppet provisioner, tmp_dir must be absolute: ", self.tmp_dir.as_str(), ""),
            );
        }
        self.install_puppet(jail, host)?;
        self.copy_manifest(jail, host)?;
        self.make_wrapper(jail, host)?;
        let puppetfile = path_below(self.outside(jail).as_str(), "Puppetfile");
        if host.is_file(puppetfile.as_str())? {
            self.run_r10k(jail, host)?;
        }
        self.run_puppet(jail, host)
    }

    /// The manifest's directory as the jail sees it.
    pub fn inside(&self) -> (s: String)
        ensures
            s@ == inside(*self),
    {
        let mut parts = split_at_char(self.path.as_str(), '/');
        assert(views(parts@).len() > 0);
        let name = parts.pop().unwrap();
        path_below(self.tmp_dir.as_str(), name.as_str())
    }

    /// The manifest's directory in the jail as the host sees it.
    pub fn outside(&self, jail: &Jail) -> (s: String)
        ensures
            s@ == outside(*self, jail@),
    {
        glue(jail.mountpoint().as_str(), self.inside().as_str())
    }

    /// Installs Puppet in the jail unless it is there.
    pub fn install_puppet(&self, jail: &Jail, host: &mut Host) -> (r: Result<(), Failure>)
        ensures
            (final(host)@, outcome(r)) == ensure_pkg_spec(
                jail@,
                old(host)@,
                "puppet"@ + self.puppet_version@,
            ),
    {
        let name = glue("puppet", self.puppet_version.as_str());
        ensure_pkg(jail, host, name.as_str())
    }

    /// Copies the manifest's directory into the jail.
    pub fn copy_manifest(&self, jail: &Jail, host: &mut Host) -> (r: Result<(), Failure>)
        ensures
            (final(host)@, outcome(r)) == copy_manifest_spec(*self, jail@, old(host)@),
    {
        let dest = glue(jail.mountpoint().as_str(), self.tmp_dir.as_str());
        host.change(Request::CreateDirAll(dest.clone()))?;
        host.change(Request::SetMode(dest.clone(), 0o700))?;
        let c = Cmd::new("rsync").arg("-r").arg("--delete").arg(self.path.as_str()).arg(
            dest.as_str(),
        );
        assert(c@.args =~= seq!["-r"@, "--delete"@, self.path@, jail@.mountpoint + self.tmp_dir@]);
        change(host, c, Ghost(Event::Changed(RequestView::Run(rsync(*self, jail@)))))
    }

    /// Writes the script that runs a command in the manifest's directory.
    pub fn make_wrapper(&self, jail: &Jail, host: &mut Host) -> (r: Result<(), Failure>)
        ensures
            (final(host)@, outcome(r)) == make_wrapper_spec(*self, jail@, old(host)@),
    {
        let path = path_below(self.outside(jail).as_str(), "wrapper.sh");
        let mut text = String::from_str("#!/bin/sh\ncd ");
        text.append(self.inside().as_str());
        text.append(" && $@\n");
        host.change(Request::WriteFile(path.clone(), text))?;
        host.change(Request::SetMode(path, 0o755))
    }

    /// Fetches the modules that the manifest asks for.
    pub fn run_r10k(&self, jail: &Jail, host: &mut Host) -> (r: Result<(), Failure>)
        ensures
            (final(host)@, outcome(r)) == run_r10k_spec(*self, jail@, old(host)@),
    {
        ensure_pkg(jail, host, "rubygem-r10k")?;
        let wrapper = path_below(self.inside().as_str(), "wrapper.sh");
        let c = Cmd::new("jexec").arg(jail.name().as_str()).arg(wrapper.as_str()).arg("r10k").arg(
            "puppetfile",
        ).arg("install");
        assert(c@.args =~= seq![
            jail@.name,
            below(inside(*self), "wrapper.sh"@),
            "r10k"@,
            "puppetfile"@,
            "install"@,
        ]);
        host.stream_change(&c)
    }

    /// The command that applies the manifest.
    pub fn apply_cmd(&self, jail: &Jail) -> (c: Cmd)
        ensures
            c@ == apply(*self, jail@),
    {
        let wrapper = path_below(self.inside().as_str(), "wrapper.sh");
        let mut c = Cmd::new("jexec").arg(jail.name().as_str()).arg(wrapper.as_str()).arg(
            "puppet",
        ).arg("apply");
        let ghost head = seq![jail@.name, below(inside(*self), "wrapper.sh"@), "puppet"@, "apply"@];
        assert(c@.args =~= head);
        match &self.modulepath {
            Some(mp) => {
                c = c.arg("--modulepath").arg(mp.as_str());
                assert(c@.args =~= head + option("--modulepath"@, self.modulepath));
            },
            None => {
                assert(c@.args =~= head + option("--modulepath"@, self.modulepath));
            },
        }
        let ghost with_modules = c@.args;
        match &self.hiera_config {
            Some(hc) => {
                c = c.arg("--hiera_config").arg(hc.as_str());
                assert(c@.args =~= with_modules + option("--hiera_config"@, self.hiera_config));
            },
            None => {
                assert(c@.args =~= with_modules + option("--hiera_config"@, self.hiera_config));
            },
        }
        c = c.args(&self.extra_args);
        let ghost with_extra = c@.args;
        if *jail.noop() {
            c = c.arg("--noop");
            assert(c@.args =~= with_extra + seq!["--noop"@]);
        } else {
            assert(c@.args =~= with_extra + Seq::<Seq<char>>::empty());
        }
        c = c.arg(self.manifest_file.as_str());
        assert(c@.args =~= apply(*self, jail@).args);
        c
    }

    /// Applies the manifest.
    pub fn run_puppet(&self, jail: &Jail, host: &mut Host) -> (r: Result<(), Failure>)
        ensures
            (final(host)@, outcome(r)) == old(host)@.stream_change(apply(*self, jail@)),
    {
        let c = self.apply_cmd(jail);
        host.stream_change(&c)
    }

    /// Checks the settings: the manifest's directory, its file, the Hiera
    /// configuration and the version of Puppet.
    pub fn validate(&self, host: &mut Host) -> (r: Result<(), Failure>)
        ensures
            (final(host)@, outcome(r)) == validate_spec(*self, old(host)@),
    {
        self.validate_path(host)?;
        self.validate_manifest_file(host)?;
        self.validate_hiera_config(host)?;
        self.validate_puppet_version()
    }

    /// Checks that the manifest's directory is one.
    pub fn validate_path(&self, host: &mut Host) -> (r: Result<(), Failure>)
        ensures
            (final(host)@, outcome(r)) == validate_path_spec(*self, old(host)@),
    {
        let found = host.is_dir(self.path.as_str())?;
        must_be(
            found,
            failure(
                "puppet provisioner, path: ",
                self.path.as_str(),
                " doesn't exist or is not a directory",
            ),
        )
    }

    /// Checks that the manifest's file is one.
    pub fn validate_manifest_file(&self, host: &mut Host) -> (r: Result<(), Failure>)
        ensures
            (final(host)@, outcome(r)) == validate_manifest_file_spec(*self, old(host)@),
    {
        let path = path_below(self.path.as_str(), self.manifest_file.as_str());
        let found = host.is_file(path.as_str())?;
        must_be(
            found,
            failure(
                "puppet provisioner, manifest file doesn't exist in: ",
                path.as_str(),
                " or is not a file",
            ),
        )
    }

    /// Checks that the Hiera configuration, if one is declared, is a file.
    pub fn validate_hiera_config(&self, host: &mut Host) -> (r: Result<(), Failure>)
        ensures
            (final(host)@, outcome(r)) == validate_hiera_config_spec(*self, old(host)@),
    {
        match &self.hiera_config {
            Some(hiera) => {
                let path = path_below(self.path.as_str(), hiera.as_str());
                let found = host.is_file(path.as_str())?;
                must_be(
                    found,
                    failure(
                        "puppet provisioner, hiera config file doesn't exist in: ",
                        path.as_str(),
                        " or is not a file",
                    ),
                )
            },
            None => Ok(()),
        }
    }

    /// Checks that the version of Puppet is one that is known.
    pub fn validate_puppet_version(&self) -> (r: Result<(), Failure>)
        ensures
            outcome(r) == validate_puppet_version_spec(*self),
    {
        if same(self.puppet_version.as_str(), "5") || same(self.puppet_version.as_str(), "6") {
            Ok(())
        } else {
            Err(
                failure(
                    "puppet provisioner, puppet version: ",
                    self.puppet_version.as_str(),
                    " is not supported",
                ),
            )
        }
    }
}

} // verus!
