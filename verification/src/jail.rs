//! Jails, and how one is brought to the state that is declared for it.

use crate::cmd::{capture_spec, command, Cmd, CmdView};
use crate::errors::{outcome, Failure, FailureView};
use crate::host::{Event, Host, HostView, RequestView, What};
use crate::maps::{conf_entries, conf_insert, conf_new, position};
use crate::provisioner::{provision_spec, Provisioner};
use crate::settings::{JailConfValue, JailSettings};
use crate::source::{install_spec, Source};
use crate::template::fstab::{pointed, table, Fstab};
use crate::template::jail_conf::{all_lines, file, in_quotes, set_line, JailConf};
use crate::text::{has_text, same, views, words, words_of};
use crate::volume::Volume;
use crate::zfs::{change, change_spec, ds_exists_spec, last_snap_spec, list_snaps_spec,
    snap_destroy_spec, destroy_spec, snap_with_spec, DataSet};
use indexmap::IndexMap;
use vstd::prelude::*;

verus! {

/// What writing a file came to.
#[derive(Debug, Clone, Copy, PartialEq, Eq)]
pub enum Change {
    /// There was no such file.
    Created,
    /// The file held something else.
    Modified,
    /// The file held just that; it was left alone.
    Unchanged,
}

impl DeepView for Change {
    type V = Change;

    open spec fn deep_view(&self) -> Change {
        *self
    }
}

/// A jail as the configuration declares it.
#[derive(Debug)]
pub struct Jail<'a> {
    jail_conf_defaults: &'a IndexMap<String, JailConfValue>,
    jail_conf_path: String,
    fstab_path: String,
    mountpoint: String,
    name: String,
    noop: &'a bool,
    noop_suffix: String,
    provisioners: Vec<&'a Provisioner>,
    jail_settings: &'a JailSettings,
    source: &'a Source,
    volumes: Vec<&'a Volume>,
    zfs_ds: DataSet,
    zfs_ds_path: String,
}

/// What a `Jail` holds.
pub struct JailView {
    pub name: Seq<char>,
    /// The directory that holds the jail's files.
    pub mountpoint: Seq<char>,
    /// The jail's configuration file.
    pub conf_path: Seq<char>,
    /// The jail's mount table.
    pub fstab_path: Seq<char>,
    /// The path of the jail's dataset.
    pub dataset: Seq<char>,
    /// Whether this is a dry run.
    pub noop: bool,
    /// Whether the jail is to run.
    pub start: bool,
    /// Whether the jail is to be started at boot.
    pub enable: bool,
    /// Whether the jail is to be stopped once it is provisioned.
    pub stop_after: bool,
    /// The options that hold for every jail.
    pub defaults: Seq<(Seq<char>, JailConfValue)>,
    /// The jail's own options.
    pub conf: Seq<(Seq<char>, JailConfValue)>,
    pub source: Source,
    pub provisioners: Seq<Provisioner>,
    pub volumes: Seq<Volume>,
}

/// The provisioners that a row of references points to.
pub open spec fn provisioners_of(refs: Seq<&Provisioner>) -> Seq<Provisioner> {
    Seq::new(refs.len(), |i: int| *refs[i])
}

impl<'a> View for Jail<'a> {
    type V = JailView;

    closed spec fn view(&self) -> JailView {
        JailView {
            name: self.name@,
            mountpoint: self.mountpoint@,
            conf_path: self.jail_conf_path@,
            fstab_path: self.fstab_path@,
            dataset: self.zfs_ds@,
            noop: *self.noop,
            start: self.jail_settings.start,
            enable: self.jail_settings.enable,
            stop_after: self.jail_settings.stop_after,
            defaults: conf_entries(*self.jail_conf_defaults),
            conf: conf_entries(self.jail_settings.conf),
            source: *self.source,
            provisioners: provisioners_of(self.provisioners@),
            volumes: pointed(self.volumes@),
        }
    }
}

/// What a log line ends with: a remark in a dry run, else nothing.
pub open spec fn suffix(noop: bool) -> Seq<char> {
    if noop {
        " (noop)"@
    } else {
        Seq::empty()
    }
}

/// The label of the snapshot that is taken before the provisioners run.
pub open spec fn pre_provision() -> Seq<char> {
    "pre-provision"@
}

/// The label of the snapshot that marks a jail as provisioned.
pub open spec fn ready() -> Seq<char> {
    "ready"@
}

impl JailView {
    /// What holds of every jail: its configuration file and its mount table
    /// are two files.
    pub open spec fn wf(self) -> bool {
        self.conf_path != self.fstab_path
    }

    /// The lines that are computed for the jail's configuration: where its
    /// files are, and where its mount table is if it has volumes.
    pub open spec fn extra_lines(self) -> Seq<Seq<char>> {
        if self.volumes.len() > 0 {
            seq![
                set_line("path"@, in_quotes(self.mountpoint)),
                set_line("mount.fstab"@, in_quotes(self.fstab_path)),
            ]
        } else {
            seq![set_line("path"@, in_quotes(self.mountpoint))]
        }
    }

    /// What the jail's configuration file is to hold.
    pub open spec fn conf_text(self) -> Seq<char> {
        file(self.name, all_lines(self.defaults), all_lines(self.conf), self.extra_lines())
    }

    /// What the jail's mount table is to hold.
    pub open spec fn fstab_text(self) -> Seq<char> {
        table(self.volumes, self.mountpoint)
    }

    /// The service command for the jail.
    pub open spec fn service(self, action: Seq<char>) -> CmdView {
        command("service"@, seq!["jail"@, action, self.name])
    }

    /// The command that changes the list of jails started at boot.
    pub open spec fn sysrc(self, sign: Seq<char>) -> CmdView {
        command("sysrc"@, seq!["jail_list"@ + sign + self.name])
    }

    /// Whether the jail exists: whether its dataset does.
    pub open spec fn present(self, h: HostView) -> (HostView, Result<bool, FailureView>) {
        ds_exists_spec(h, self.dataset)
    }

    /// Whether the jail runs: whether `jls` finds it.
    pub open spec fn is_running(self, h: HostView) -> (HostView, Result<bool, FailureView>) {
        let (h1, r) = h.run(command("jls"@, seq!["-j"@, self.name]));
        match r {
            Ok(out) => (
                h1.with(Event::Running(self.name, out.code == Some(0i32))),
                Ok(out.code == Some(0i32)),
            ),
            Err(e) => (h1, Err(e)),
        }
    }

    /// Whether the jail is started at boot: whether its name is a word of
    /// the list that `sysrc` prints.
    pub open spec fn is_enabled(self, h: HostView) -> (HostView, Result<bool, FailureView>) {
        let (h1, r) = capture_spec(h, command("sysrc"@, seq!["-n"@, "jail_list"@]));
        match r {
            Ok(out) => (
                h1.with(Event::Enabled(self.name, words(out).contains(self.name))),
                Ok(words(out).contains(self.name)),
            ),
            Err(e) => (h1, Err(e)),
        }
    }

    /// A change that is told to the user and, unless this is a dry run,
    /// made by a command.
    pub open spec fn act(self, h: HostView, what: What, c: CmdView, event: Event) -> (
        HostView,
        Result<(), FailureView>,
    ) {
        let (h1, r) = h.note(what, self.name, Seq::empty(), self.noop);
        match r {
            Err(e) => (h1, Err(e)),
            Ok(_) => if self.noop {
                (h1, Ok(()))
            } else {
                change_spec(h1, c, event)
            },
        }
    }

    /// Starting the jail.
    pub open spec fn start(self, h: HostView) -> (HostView, Result<(), FailureView>) {
        self.act(h, What::Starting, self.service("start"@), Event::Started(self.name))
    }

    /// Stopping the jail.
    pub open spec fn stop(self, h: HostView) -> (HostView, Result<(), FailureView>) {
        self.act(h, What::Stopping, self.service("stop"@), Event::Stopped(self.name))
    }

    /// Adding the jail to those started at boot.
    pub open spec fn enable(self, h: HostView) -> (HostView, Result<(), FailureView>) {
        self.act(h, What::Enabling, self.sysrc("+="@), Event::Enable(self.name))
    }

    /// Taking the jail from those started at boot.
    pub open spec fn disable(self, h: HostView) -> (HostView, Result<(), FailureView>) {
        self.act(h, What::Disabling, self.sysrc("-="@), Event::Disable(self.name))
    }

    /// Taking a snapshot of the jail's dataset, named by the label and the
    /// time.
    pub open spec fn snap(self, h: HostView, label: Seq<char>) -> (
        HostView,
        Result<(), FailureView>,
    ) {
        let (h1, r) = h.note(What::Snapshotting, self.name, seq![label], self.noop);
        match r {
            Err(e) => (h1, Err(e)),
            Ok(_) => if self.noop {
                (h1, Ok(()))
            } else {
                snap_with_spec(h1, self.dataset, label, RequestView::Now)
            },
        }
    }

    /// Making a file hold a text. The file is written only where it is
    /// missing or holds something else, and not in a dry run; the user is
    /// told either way.
    #[verifier::opaque]
    pub open spec fn sync_file(self, h: HostView, path: Seq<char>, text: Seq<char>) -> (
        HostView,
        Result<Change, FailureView>,
    ) {
        let (h1, r1) = h.is_file(path);
        match r1 {
            Err(e) => (h1, Err(e)),
            Ok(false) => {
                let (h2, r2) = h1.note(What::Creating, self.name, seq![path], self.noop);
                match r2 {
                    Err(e) => (h2, Err(e)),
                    Ok(_) => self.write(h2, path, text, Change::Created),
                }
            },
            Ok(true) => {
                let (h2, r2) = h1.read_file(path);
                match r2 {
                    Err(e) => (h2, Err(e)),
                    Ok(current) => if current == text {
                        (h2, Ok(Change::Unchanged))
                    } else {
                        let (h3, r3) = h2.note(
                            What::Updating,
                            self.name,
                            seq![path, current, text],
                            self.noop,
                        );
                        match r3 {
                            Err(e) => (h3, Err(e)),
                            Ok(_) => self.write(h3, path, text, Change::Modified),
                        }
                    },
                }
            },
        }
    }

    /// Writing a file, unless this is a dry run.
    pub open spec fn write(self, h: HostView, path: Seq<char>, text: Seq<char>, change: Change) -> (
        HostView,
        Result<Change, FailureView>,
    ) {
        if self.noop {
            (h, Ok(change))
        } else {
            let (h1, r) = h.write_file(path, text);
            match r {
                Err(e) => (h1, Err(e)),
                Ok(_) => (h1, Ok(change)),
            }
        }
    }

    /// Bringing the configuration file up to date.
    pub open spec fn configure(self, h: HostView) -> (HostView, Result<Change, FailureView>) {
        self.sync_file(h, self.conf_path, self.conf_text())
    }

    /// Bringing the mount table up to date.
    pub open spec fn write_fstab(self, h: HostView) -> (HostView, Result<(), FailureView>) {
        let (h1, r) = self.sync_file(h, self.fstab_path, self.fstab_text());
        match r {
            Err(e) => (h1, Err(e)),
            Ok(_) => (h1, Ok(())),
        }
    }

    /// Installing the jail from its source.
    pub open spec fn install(self, h: HostView) -> (HostView, Result<(), FailureView>) {
        install_spec(self.source, self, h)
    }
}

/// The paths of a jail's two files differ, whatever the jail's name.
pub proof fn lemma_two_files(name: Seq<char>)
    ensures
        "/etc/jail."@ + name + ".conf"@ != "/etc/fstab."@ + name,
{
    reveal_strlit("/etc/jail.");
    reveal_strlit("/etc/fstab.");
    let a = "/etc/jail."@ + name + ".conf"@;
    let b = "/etc/fstab."@ + name;
    assert(a[5] == 'j');
    assert(b[5] == 'f');
}

impl<'a> Jail<'a> {
    #[verifier::type_invariant]
    spec fn sound(self) -> bool {
        &&& self.jail_conf_path@ != self.fstab_path@
        &&& self.noop_suffix@ == suffix(*self.noop)
    }

    /// The jail `name`, with its dataset below `jails_dataset` and its files
    /// below `jails_mountpoint`.
    pub fn new(
        name: &str,
        jails_mountpoint: &str,
        jails_dataset: &str,
        source: &'a Source,
        jail_settings: &'a JailSettings,
        jail_conf_defaults: &'a IndexMap<String, JailConfValue>,
        provisioners: Vec<&'a Provisioner>,
        noop: &'a bool,
        volumes: Vec<&'a Volume>,
    ) -> (jail: Jail<'a>)
        ensures
            jail@ == (JailView {
                name: name@,
                mountpoint: jails_mountpoint@ + "/"@ + name@,
                conf_path: "/etc/jail."@ + name@ + ".conf"@,
                fstab_path: "/etc/fstab."@ + name@,
                dataset: jails_dataset@ + "/"@ + name@,
                noop: *noop,
                start: jail_settings.start,
                enable: jail_settings.enable,
                stop_after: jail_settings.stop_after,
                defaults: conf_entries(*jail_conf_defaults),
                conf: conf_entries(jail_settings.conf),
                source: *source,
                provisioners: provisioners_of(provisioners@),
                volumes: pointed(volumes@),
            }),
            jail@.wf(),
    {
        let mut zfs_ds_path = String::from_str(jails_dataset);
        zfs_ds_path.append("/");
        zfs_ds_path.append(name);
        let mut mountpoint = String::from_str(jails_mountpoint);
        mountpoint.append("/");
        mountpoint.append(name);
        let mut jail_conf_path = String::from_str("/etc/jail.");
        jail_conf_path.append(name);
        jail_conf_path.append(".conf");
        let mut fstab_path = String::from_str("/etc/fstab.");
        fstab_path.append(name);
        proof {
            lemma_two_files(name@);
        }
        Jail {
            name: String::from_str(name),
            mountpoint,
            source,
            zfs_ds: DataSet::new(zfs_ds_path.as_str()),
            zfs_ds_path,
            jail_settings,
            jail_conf_defaults,
            jail_conf_path,
            fstab_path,
            provisioners,
            noop,
            noop_suffix: Self::make_noop_suffix(noop),
            volumes,
        }
    }

    /// What a log line ends with: a remark in a dry run, else nothing.
    pub fn make_noop_suffix(noop: &bool) -> (s: String)
        ensures
            s@ == suffix(*noop),
    {
        if *noop {
            String::from_str(" (noop)")
        } else {
            String::new()
        }
    }

    /// The jail's name.
    pub fn name(&self) -> (r: &String)
        ensures
            r@ == self@.name,
    {
        &self.name
    }

    /// The directory that holds the jail's files.
    pub fn mountpoint(&self) -> (r: &String)
        ensures
            r@ == self@.mountpoint,
    {
        &self.mountpoint
    }

    /// The jail's dataset.
    pub fn zfs_ds(&self) -> (r: &DataSet)
        ensures
            r@ == self@.dataset,
    {
        &self.zfs_ds
    }

    /// Whether this is a dry run.
    pub fn noop(&self) -> (r: &bool)
        ensures
            *r == self@.noop,
    {
        self.noop
    }

    /// What a log line ends with.
    pub fn noop_suffix(&self) -> (r: &String)
        ensures
            r@ == suffix(self@.noop),
    {
        proof {
            use_type_invariant(self);
        }
        &self.noop_suffix
    }

    /// The jail's configuration file.
    pub fn jail_conf_path(&self) -> (r: &String)
        ensures
            r@ == self@.conf_path,
    {
        &self.jail_conf_path
    }

    /// The jail's mount table.
    pub fn fstab_path(&self) -> (r: &String)
        ensures
            r@ == self@.fstab_path,
    {
        &self.fstab_path
    }

    /// Whether the jail exists.
    pub fn present(&self, host: &mut Host) -> (r: Result<bool, Failure>)
        ensures
            (final(host)@, outcome(r)) == self@.present(old(host)@),
    {
        self.zfs_ds.present(host)
    }

    /// Whether the jail runs.
    pub fn is_running(&self, host: &mut Host) -> (r: Result<bool, Failure>)
        ensures
            (final(host)@, outcome(r)) == self@.is_running(old(host)@),
    {
        let c = Cmd::new("jls").arg("-j").arg(self.name.as_str());
        assert(c@.args =~= seq!["-j"@, self@.name]);
        let out = host.run(c)?;
        let running = match out.code {
            Some(code) => code == 0,
            None => false,
        };
        host.record(Ghost(Event::Running(self@.name, running)));
        Ok(running)
    }

    /// Whether the jail is started at boot.
    pub fn is_enabled(&self, host: &mut Host) -> (r: Result<bool, Failure>)
        ensures
            (final(host)@, outcome(r)) == self@.is_enabled(old(host)@),
    {
        let c = Cmd::new("sysrc").arg("-n").arg("jail_list");
        assert(c@.args =~= seq!["-n"@, "jail_list"@]);
        let out = c.capture(host)?;
        let enabled = has_text(&words_of(out.as_str()), self.name.as_str());
        host.record(Ghost(Event::Enabled(self@.name, enabled)));
        Ok(enabled)
    }

    fn act(&self, host: &mut Host, what: What, c: Cmd, event: Ghost<Event>) -> (r: Result<
        (),
        Failure,
    >)
        ensures
            (final(host)@, outcome(r)) == self@.act(old(host)@, what, c@, event@),
    {
        host.note0(what, self.name.as_str(), *self.noop)?;
        if *self.noop {
            Ok(())
        } else {
            change(host, c, event)
        }
    }

    fn service(&self, action: &str) -> (c: Cmd)
        ensures
            c@ == self@.service(action@),
    {
        let c = Cmd::new("service").arg("jail").arg(action).arg(self.name.as_str());
        assert(c@.args =~= seq!["jail"@, action@, self@.name]);
        c
    }

    fn sysrc(&self, sign: &str) -> (c: Cmd)
        ensures
            c@ == self@.sysrc(sign@),
    {
        let mut word = String::from_str("jail_list");
        word.append(sign);
        word.append(self.name.as_str());
        let c = Cmd::new("sysrc").arg(word.as_str());
        assert(c@.args =~= seq!["jail_list"@ + sign@ + self@.name]);
        c
    }

    /// Starts the jail.
    pub fn start(&self, host: &mut Host) -> (r: Result<(), Failure>)
        ensures
            (final(host)@, outcome(r)) == self@.start(old(host)@),
    {
        self.act(host, What::Starting, self.service("start"), Ghost(Event::Started(self@.name)))
    }

    /// Stops the jail.
    pub fn stop(&self, host: &mut Host) -> (r: Result<(), Failure>)
        ensures
            (final(host)@, outcome(r)) == self@.stop(old(host)@),
    {
        self.act(host, What::Stopping, self.service("stop"), Ghost(Event::Stopped(self@.name)))
    }

    /// Adds the jail to those started at boot.
    pub fn enable(&self, host: &mut Host) -> (r: Result<(), Failure>)
        ensures
            (final(host)@, outcome(r)) == self@.enable(old(host)@),
    {
        self.act(host, What::Enabling, self.sysrc("+="), Ghost(Event::Enable(self@.name)))
    }

    /// Takes the jail from those started at boot.
    pub fn disable(&self, host: &mut Host) -> (r: Result<(), Failure>)
        ensures
            (final(host)@, outcome(r)) == self@.disable(old(host)@),
    {
        self.act(host, What::Disabling, self.sysrc("-="), Ghost(Event::Disable(self@.name)))
    }

    /// Takes a snapshot of the jail's dataset, named by the label and the
    /// time.
    pub fn snap(&self, host: &mut Host, snap_name: &str) -> (r: Result<(), Failure>)
        ensures
            (final(host)@, outcome(r)) == self@.snap(old(host)@, snap_name@),
    {
        host.note1(What::Snapshotting, self.name.as_str(), snap_name, *self.noop)?;
        if *self.noop {
            Ok(())
        } else {
            self.zfs_ds.snap_with_time(host, snap_name)
        }
    }

    /// The options that are computed for the jail: where its files are, and
    /// where its mount table is if it has volumes.
    pub fn extra_conf(&self) -> (m: IndexMap<String, JailConfValue>)
        ensures
            all_lines(conf_entries(m)) == self@.extra_lines(),
    {
        let mut m = conf_new();
        let path = JailConfValue::Path(self.mountpoint.clone());
        conf_insert(&mut m, String::from_str("path"), path);
        let ghost one = conf_entries(m);
        proof {
            let none = Seq::<(Seq<char>, JailConfValue)>::empty();
            assert(position(none, "path"@) is None);
            assert(one == seq![("path"@, path)]);
            assert(one.drop_last() == none);
            assert(all_lines(none) == Seq::<Seq<char>>::empty());
            assert(all_lines(one) == seq![set_line("path"@, in_quotes(self@.mountpoint))]);
        }
        if self.volumes.len() > 0 {
            let table = JailConfValue::Path(self.fstab_path.clone());
            conf_insert(&mut m, String::from_str("mount.fstab"), table);
            proof {
                reveal_strlit("path");
                reveal_strlit("mount.fstab");
                assert("path"@.len() != "mount.fstab"@.len());
                assert(position(one.drop_last(), "mount.fstab"@) is None);
                assert(position(one, "mount.fstab"@) is None);
                let two = conf_entries(m);
                assert(two == one.push(("mount.fstab"@, table)));
                assert(two.drop_last() == one);
                assert(all_lines(two) == all_lines(one) + seq![
                    set_line("mount.fstab"@, in_quotes(self@.fstab_path)),
                ]);
                assert(all_lines(two) == self@.extra_lines());
            }
        }
        m
    }

    /// The text that the jail's configuration file is to hold.
    pub fn conf_text(&self) -> (r: Result<String, Failure>)
        ensures
            r matches Ok(s) && s@ == self@.conf_text(),
    {
        let extra_conf = self.extra_conf();
        let jail_conf_template = JailConf::new(
            self.name.as_str(),
            self.jail_conf_defaults,
            &self.jail_settings.conf,
            &extra_conf,
        )?;
        jail_conf_template.render()
    }

    /// The text that the jail's mount table is to hold.
    pub fn fstab_text(&self) -> (r: Result<String, Failure>)
        ensures
            r matches Ok(s) && s@ == self@.fstab_text(),
    {
        let mut volumes: Vec<&Volume> = Vec::new();
        let mut i: usize = 0;
        while i < self.volumes.len()
            invariant
                i <= self.volumes.len(),
                volumes@ == self.volumes@.take(i as int),
            decreases self.volumes.len() - i,
        {
            volumes.push(self.volumes[i]);
            assert(self.volumes@.take(i + 1) == self.volumes@.take(i as int).push(
                self.volumes@[i as int],
            ));
            i = i + 1;
        }
        assert(self.volumes@.take(self.volumes.len() as int) == self.volumes@);
        let fstab = Fstab { volumes, jail_mountpoint: self.mountpoint.clone() };
        fstab.render()
    }

    /// Makes a file hold a text, and says what that came to.
    pub fn sync_file(&self, host: &mut Host, path: &str, text: &str) -> (r: Result<Change, Failure>)
        ensures
            (final(host)@, outcome(r)) == self@.sync_file(old(host)@, path@, text@),
    {
        proof {
            reveal(JailView::sync_file);
        }
        if host.is_file(path)? {
            let current = host.read_file(path)?;
            if same(current.as_str(), text) {
                Ok(Change::Unchanged)
            } else {
                host.note3(
                    What::Updating,
                    self.name.as_str(),
                    path,
                    current.as_str(),
                    text,
                    *self.noop,
                )?;
                self.write(host, path, text, Change::Modified)
            }
        } else {
            host.note1(What::Creating, self.name.as_str(), path, *self.noop)?;
            self.write(host, path, text, Change::Created)
        }
    }

    fn write(&self, host: &mut Host, path: &str, text: &str, change: Change) -> (r: Result<
        Change,
        Failure,
    >)
        ensures
            (final(host)@, outcome(r)) == self@.write(old(host)@, path@, text@, change),
    {
        if *self.noop {
            Ok(change)
        } else {
            host.write_file(path, text)?;
            Ok(change)
        }
    }

    /// Brings the jail's configuration file up to date.
    pub fn configure(&self, host: &mut Host) -> (r: Result<Change, Failure>)
        ensures
            (final(host)@, outcome(r)) == self@.configure(old(host)@),
    {
        let text = self.conf_text()?;
        self.sync_file(host, self.jail_conf_path.as_str(), text.as_str())
    }

    /// Brings the jail's mount table up to date.
    pub fn write_fstab(&self, host: &mut Host) -> (r: Result<(), Failure>)
        ensures
            (final(host)@, outcome(r)) == self@.write_fstab(old(host)@),
    {
        let text = self.fstab_text()?;
        self.sync_file(host, self.fstab_path.as_str(), text.as_str())?;
        Ok(())
    }

    /// Installs the jail from its source.
    pub fn install(&self, host: &mut Host) -> (r: Result<(), Failure>)
        ensures
            (final(host)@, outcome(r)) == self@.install(old(host)@),
    {
        self.source.install(self, host)
    }
}

impl JailView {
    /// Running the first `n` provisioners in their order, up to the first
    /// that fails.
    pub open spec fn provision_all(self, h: HostView, n: nat) -> (HostView, Result<(), FailureView>)
        decreases n,
    {
        if n == 0 {
            (h, Ok(()))
        } else {
            let (h1, r) = self.provision_all(h, (n - 1) as nat);
            match r {
                Err(e) => (h1, Err(e)),
                Ok(_) => provision_spec(self.provisioners[n - 1], self, h1),
            }
        }
    }

    /// What comes before the provisioners, if there are any: a snapshot is
    /// taken, and the jail is started unless it runs.
    #[verifier::opaque]
    pub open spec fn prepare(self, h: HostView) -> (HostView, Result<(), FailureView>) {
        if self.provisioners.len() > 0 {
            let (h1, r1) = self.snap(h, pre_provision());
            match r1 {
                Err(e) => (h1, Err(e)),
                Ok(_) => {
                    let (h2, r2) = self.is_running(h1);
                    match r2 {
                        Err(e) => (h2, Err(e)),
                        Ok(true) => (h2, Ok(())),
                        Ok(false) => self.start(h2),
                    }
                },
            }
        } else {
            (h, Ok(()))
        }
    }

    /// The provisioners are run if the jail exists.
    #[verifier::opaque]
    pub open spec fn run_provisioners(self, h: HostView) -> (HostView, Result<(), FailureView>) {
        let (h1, r1) = self.present(h);
        match r1 {
            Err(e) => (h1, Err(e)),
            Ok(true) => self.provision_all(h1, self.provisioners.len()),
            Ok(false) => (h1, Ok(())),
        }
    }

    /// The jail is marked as provisioned by a snapshot. Where provisioners
    /// have run, a new one is taken; where there are none, only if the jail
    /// has no such mark yet.
    #[verifier::opaque]
    pub open spec fn mark_ready(self, h: HostView) -> (HostView, Result<(), FailureView>) {
        if self.provisioners.len() > 0 {
            self.snap(h, ready())
        } else {
            let (h1, r1) = last_snap_spec(h, self.dataset, ready());
            match r1 {
                Err(e) => (h1, Err(e)),
                Ok(Some(_)) => (h1, Ok(())),
                Ok(None) => self.snap(h1, ready()),
            }
        }
    }

    /// A jail that is to be stopped once it is provisioned is stopped if it
    /// runs.
    #[verifier::opaque]
    pub open spec fn settle(self, h: HostView) -> (HostView, Result<(), FailureView>) {
        if self.stop_after {
            let (h1, r1) = self.is_running(h);
            match r1 {
                Err(e) => (h1, Err(e)),
                Ok(true) => self.stop(h1),
                Ok(false) => (h1, Ok(())),
            }
        } else {
            (h, Ok(()))
        }
    }

    /// Provisioning: what comes before the provisioners, the provisioners,
    /// the mark, and the stop where one is declared; each step only where
    /// all before it went well.
    #[verifier::opaque]
    pub open spec fn provision(self, h: HostView) -> (HostView, Result<(), FailureView>) {
        let (h1, r1) = self.prepare(h);
        match r1 {
            Err(e) => (h1, Err(e)),
            Ok(_) => {
                let (h2, r2) = h1.note(What::Provisioning, self.name, Seq::empty(), self.noop);
                match r2 {
                    Err(e) => (h2, Err(e)),
                    Ok(_) => {
                        let (h3, r3) = self.run_provisioners(h2);
                        match r3 {
                            Err(e) => (h3, Err(e)),
                            Ok(_) => {
                                let (h4, r4) = self.mark_ready(h3);
                                match r4 {
                                    Err(e) => (h4, Err(e)),
                                    Ok(_) => self.settle(h4),
                                }
                            },
                        }
                    },
                }
            },
        }
    }

    /// The jail is installed unless it exists.
    #[verifier::opaque]
    pub open spec fn install_if_absent(self, h: HostView) -> (HostView, Result<(), FailureView>) {
        let (h1, r1) = self.present(h);
        match r1 {
            Err(e) => (h1, Err(e)),
            Ok(true) => (h1, Ok(())),
            Ok(false) => self.install(h1),
        }
    }

    /// The mount table is brought up to date if the jail has volumes.
    #[verifier::opaque]
    pub open spec fn mount_table(self, h: HostView) -> (HostView, Result<(), FailureView>) {
        if self.volumes.len() > 0 {
            self.write_fstab(h)
        } else {
            (h, Ok(()))
        }
    }

    /// The jail is added to those started at boot, or taken from them, where
    /// it is not as declared.
    #[verifier::opaque]
    pub open spec fn enablement(self, h: HostView) -> (HostView, Result<(), FailureView>) {
        let (h1, r1) = self.is_enabled(h);
        match r1 {
            Err(e) => (h1, Err(e)),
            Ok(enabled) => if self.enable && !enabled {
                self.enable(h1)
            } else if !self.enable && enabled {
                self.disable(h1)
            } else {
                (h1, Ok(()))
            },
        }
    }

    /// The jail is started or stopped where it is not as declared.
    #[verifier::opaque]
    pub open spec fn run_state(self, h: HostView) -> (HostView, Result<(), FailureView>) {
        let (h1, r1) = self.is_running(h);
        match r1 {
            Err(e) => (h1, Err(e)),
            Ok(running) => if self.start && !running {
                self.start(h1)
            } else if !self.start && running {
                self.stop(h1)
            } else {
                (h1, Ok(()))
            },
        }
    }

    /// The jail is provisioned unless a snapshot marks it as provisioned.
    #[verifier::opaque]
    pub open spec fn provision_if_due(self, h: HostView) -> (HostView, Result<(), FailureView>) {
        let (h1, r1) = last_snap_spec(h, self.dataset, ready());
        match r1 {
            Err(e) => (h1, Err(e)),
            Ok(Some(_)) => (h1, Ok(())),
            Ok(None) => self.provision(h1),
        }
    }

    /// A running jail is stopped and started again where its configuration
    /// file was changed.
    #[verifier::opaque]
    pub open spec fn restart(self, h: HostView, changed: bool) -> (
        HostView,
        Result<(), FailureView>,
    ) {
        let (h1, r1) = self.is_running(h);
        match r1 {
            Err(e) => (h1, Err(e)),
            Ok(running) => if running && changed {
                let (h2, r2) = self.stop(h1);
                match r2 {
                    Err(e) => (h2, Err(e)),
                    Ok(_) => self.start(h2),
                }
            } else {
                (h1, Ok(()))
            },
        }
    }

    /// What follows the configuration file when a jail is brought to its
    /// declared state: the mount table, whether it is started at boot,
    /// whether it runs, the provisioning, and the restart.
    #[verifier::opaque]
    pub open spec fn converge(self, h: HostView, changed: bool) -> (
        HostView,
        Result<(), FailureView>,
    ) {
        let (h1, r1) = self.mount_table(h);
        match r1 {
            Err(e) => (h1, Err(e)),
            Ok(_) => {
                let (h2, r2) = self.enablement(h1);
                match r2 {
                    Err(e) => (h2, Err(e)),
                    Ok(_) => {
                        let (h3, r3) = self.run_state(h2);
                        match r3 {
                            Err(e) => (h3, Err(e)),
                            Ok(_) => {
                                let (h4, r4) = self.provision_if_due(h3);
                                match r4 {
                                    Err(e) => (h4, Err(e)),
                                    Ok(_) => self.restart(h4, changed),
                                }
                            },
                        }
                    },
                }
            },
        }
    }

    /// Bringing the jail to its declared state: it is installed unless it
    /// exists; its configuration file is brought up to date; then the rest
    /// follows, each step only where all before it went well.
    pub open spec fn apply(self, h: HostView) -> (HostView, Result<(), FailureView>) {
        let (h0, r0) = h.note(What::Applying, self.name, Seq::empty(), self.noop);
        match r0 {
            Err(e) => (h0, Err(e)),
            Ok(_) => {
                let (h1, r1) = self.install_if_absent(h0);
                match r1 {
                    Err(e) => (h1, Err(e)),
                    Ok(_) => {
                        let (h2, r2) = self.configure(h1);
                        match r2 {
                            Err(e) => (h2, Err(e)),
                            Ok(change) => self.converge(h2, change == Change::Modified),
                        }
                    },
                }
            },
        }
    }

    /// Removing a file if it is there; the user is told, and in a dry run
    /// the file stays.
    #[verifier::opaque]
    pub open spec fn remove_if_file(self, h: HostView, path: Seq<char>, what: What) -> (
        HostView,
        Result<(), FailureView>,
    ) {
        let (h1, r1) = h.is_file(path);
        match r1 {
            Err(e) => (h1, Err(e)),
            Ok(false) => (h1, Ok(())),
            Ok(true) => {
                let (h2, r2) = h1.note(what, self.name, seq![path], self.noop);
                match r2 {
                    Err(e) => (h2, Err(e)),
                    Ok(_) => if self.noop {
                        (h2, Ok(()))
                    } else {
                        h2.remove_file(path)
                    },
                }
            },
        }
    }

    /// Destroying the first `n` of the snapshots, up to the first that
    /// fails.
    pub open spec fn destroy_snaps(self, h: HostView, names: Seq<Seq<char>>, n: nat) -> (
        HostView,
        Result<(), FailureView>,
    )
        decreases n,
    {
        if n == 0 {
            (h, Ok(()))
        } else {
            let (h1, r) = self.destroy_snaps(h, names, (n - 1) as nat);
            match r {
                Err(e) => (h1, Err(e)),
                Ok(_) => snap_destroy_spec(h1, self.dataset, names[n - 1]),
            }
        }
    }

    /// Destroying the snapshots of the jail's dataset, if it has any; the
    /// user is told, and in a dry run they stay.
    #[verifier::opaque]
    pub open spec fn clear_snaps(self, h: HostView) -> (HostView, Result<(), FailureView>) {
        let (h1, r1) = list_snaps_spec(h, self.dataset);
        match r1 {
            Err(e) => (h1, Err(e)),
            Ok(names) => if names.len() == 0 {
                (h1, Ok(()))
            } else {
                let (h2, r2) = h1.note(
                    What::DestroyingSnapshots,
                    self.name,
                    Seq::empty(),
                    self.noop,
                );
                match r2 {
                    Err(e) => (h2, Err(e)),
                    Ok(_) => if self.noop {
                        (h2, Ok(()))
                    } else {
                        self.destroy_snaps(h2, names, names.len())
                    },
                }
            },
        }
    }

    /// Destroying the jail's dataset; the user is told, and in a dry run it
    /// stays.
    #[verifier::opaque]
    pub open spec fn drop_dataset(self, h: HostView) -> (HostView, Result<(), FailureView>) {
        let (h1, r1) = h.note(What::DestroyingDataset, self.name, Seq::empty(), self.noop);
        match r1 {
            Err(e) => (h1, Err(e)),
            Ok(_) => if self.noop {
                (h1, Ok(()))
            } else {
                destroy_spec(h1, self.dataset)
            },
        }
    }

    /// The jail is stopped if it runs.
    #[verifier::opaque]
    pub open spec fn halt(self, h: HostView) -> (HostView, Result<(), FailureView>) {
        let (h1, r1) = self.is_running(h);
        match r1 {
            Err(e) => (h1, Err(e)),
            Ok(true) => self.stop(h1),
            Ok(false) => (h1, Ok(())),
        }
    }

    /// The jail is taken from those started at boot if it is among them.
    #[verifier::opaque]
    pub open spec fn unlist(self, h: HostView) -> (HostView, Result<(), FailureView>) {
        let (h1, r1) = self.is_enabled(h);
        match r1 {
            Err(e) => (h1, Err(e)),
            Ok(true) => self.disable(h1),
            Ok(false) => (h1, Ok(())),
        }
    }

    /// Taking an existing jail away: it is stopped and no longer started at
    /// boot, its two files are removed, its snapshots and its dataset are
    /// destroyed.
    #[verifier::opaque]
    pub open spec fn dismantle(self, h: HostView) -> (HostView, Result<(), FailureView>) {
        let (h1, r1) = self.halt(h);
        match r1 {
            Err(e) => (h1, Err(e)),
            Ok(_) => {
                let (h2, r2) = self.unlist(h1);
                match r2 {
                    Err(e) => (h2, Err(e)),
                    Ok(_) => {
                        let (h3, r3) = self.remove_if_file(
                            h2,
                            self.conf_path,
                            What::RemovingConfig,
                        );
                        match r3 {
                            Err(e) => (h3, Err(e)),
                            Ok(_) => {
                                let (h4, r4) = self.remove_if_file(
                                    h3,
                                    self.fstab_path,
                                    What::RemovingFstab,
                                );
                                match r4 {
                                    Err(e) => (h4, Err(e)),
                                    Ok(_) => {
                                        let (h5, r5) = self.clear_snaps(h4);
                                        match r5 {
                                            Err(e) => (h5, Err(e)),
                                            Ok(_) => self.drop_dataset(h5),
                                        }
                                    },
                                }
                            },
                        }
                    },
                }
            },
        }
    }

    /// Destroying the jail. One that does not exist is left alone, and the
    /// user is told.
    pub open spec fn destroy(self, h: HostView) -> (HostView, Result<(), FailureView>) {
        let (h1, r1) = self.present(h);
        match r1 {
            Err(e) => (h1, Err(e)),
            Ok(false) => h1.note(What::Missing, self.name, Seq::empty(), self.noop),
            Ok(true) => self.dismantle(h1),
        }
    }
}

/// Once a provisioner has failed, the failure stands however many follow.
proof fn lemma_provision_fails(j: JailView, h: HostView, k: nat, n: nat)
    requires
        k <= n,
        j.provision_all(h, k).1 is Err,
    ensures
        j.provision_all(h, n) == j.provision_all(h, k),
    decreases n,
{
    if k < n {
        lemma_provision_fails(j, h, k, (n - 1) as nat);
    }
}

/// Once a snapshot could not be destroyed, the failure stands however many
/// follow.
proof fn lemma_destroy_fails(j: JailView, h: HostView, names: Seq<Seq<char>>, k: nat, n: nat)
    requires
        k <= n,
        j.destroy_snaps(h, names, k).1 is Err,
    ensures
        j.destroy_snaps(h, names, n) == j.destroy_snaps(h, names, k),
    decreases n,
{
    if k < n {
        lemma_destroy_fails(j, h, names, k, (n - 1) as nat);
    }
}

impl<'a> Jail<'a> {
    /// Runs the provisioners in their order and stops at the first that
    /// fails.
    pub fn provision_all(&self, host: &mut Host) -> (r: Result<(), Failure>)
        ensures
            (final(host)@, outcome(r)) == self@.provision_all(
                old(host)@,
                self@.provisioners.len(),
            ),
    {
        let mut i: usize = 0;
        while i < self.provisioners.len()
            invariant
                i <= self.provisioners.len(),
                self@.provisioners.len() == self.provisioners.len(),
                (host@, Ok::<(), FailureView>(())) == self@.provision_all(old(host)@, i as nat),
            decreases self.provisioners.len() - i,
        {
            assert(self@.provisioners[i as int] == *self.provisioners@[i as int]);
            match self.provisioners[i].provision(self, host) {
                Ok(_) => {},
                Err(e) => {
                    proof {
                        lemma_provision_fails(
                            self@,
                            old(host)@,
                            (i + 1) as nat,
                            self@.provisioners.len(),
                        );
                    }
                    return Err(e);
                },
            }
            i = i + 1;
        }
        Ok(())
    }

    fn prepare(&self, host: &mut Host) -> (r: Result<(), Failure>)
        ensures
            (final(host)@, outcome(r)) == self@.prepare(old(host)@),
    {
        proof {
            reveal(JailView::prepare);
        }
        if self.provisioners.len() > 0 {
            self.snap(host, "pre-provision")?;
            if !self.is_running(host)? {
                self.start(host)?;
            }
        }
        Ok(())
    }

    fn run_provisioners(&self, host: &mut Host) -> (r: Result<(), Failure>)
        ensures
            (final(host)@, outcome(r)) == self@.run_provisioners(old(host)@),
    {
        proof {
            reveal(JailView::run_provisioners);
        }
        if self.present(host)? {
            self.provision_all(host)
        } else {
            Ok(())
        }
    }

    fn mark_ready(&self, host: &mut Host) -> (r: Result<(), Failure>)
        ensures
            (final(host)@, outcome(r)) == self@.mark_ready(old(host)@),
    {
        proof {
            reveal(JailView::mark_ready);
        }
        if self.provisioners.len() > 0 {
            self.snap(host, "ready")
        } else {
            match self.zfs_ds.last_snap(host, "ready")? {
                Some(_) => Ok(()),
                None => self.snap(host, "ready"),
            }
        }
    }

    fn settle(&self, host: &mut Host) -> (r: Result<(), Failure>)
        ensures
            (final(host)@, outcome(r)) == self@.settle(old(host)@),
    {
        proof {
            reveal(JailView::settle);
        }
        if self.jail_settings.stop_after {
            if self.is_running(host)? {
                self.stop(host)?;
            }
        }
        Ok(())
    }

    /// Provisions the jail: takes a snapshot and starts the jail if there
    /// are provisioners, runs them in their order, marks the jail as
    /// provisioned, and stops it where that is declared.
    pub fn provision(&self, host: &mut Host) -> (r: Result<(), Failure>)
        ensures
            (final(host)@, outcome(r)) == self@.provision(old(host)@),
            self@.wf(),
    {
        proof {
            reveal(JailView::provision);
        }
        proof {
            use_type_invariant(self);
        }
        self.prepare(host)?;
        host.note0(What::Provisioning, self.name.as_str(), *self.noop)?;
        self.run_provisioners(host)?;
        self.mark_ready(host)?;
        self.settle(host)
    }

    fn install_if_absent(&self, host: &mut Host) -> (r: Result<(), Failure>)
        ensures
            (final(host)@, outcome(r)) == self@.install_if_absent(old(host)@),
    {
        proof {
            reveal(JailView::install_if_absent);
        }
        if self.present(host)? {
            Ok(())
        } else {
            self.install(host)
        }
    }

    fn mount_table(&self, host: &mut Host) -> (r: Result<(), Failure>)
        ensures
            (final(host)@, outcome(r)) == self@.mount_table(old(host)@),
    {
        proof {
            reveal(JailView::mount_table);
        }
        if self.volumes.len() > 0 {
            self.write_fstab(host)
        } else {
            Ok(())
        }
    }

    fn enablement(&self, host: &mut Host) -> (r: Result<(), Failure>)
        ensures
            (final(host)@, outcome(r)) == self@.enablement(old(host)@),
    {
        proof {
            reveal(JailView::enablement);
        }
        let enabled = self.is_enabled(host)?;
        if self.jail_settings.enable && !enabled {
            self.enable(host)
        } else if !self.jail_settings.enable && enabled {
            self.disable(host)
        } else {
            Ok(())
        }
    }

    fn run_state(&self, host: &mut Host) -> (r: Result<(), Failure>)
        ensures
            (final(host)@, outcome(r)) == self@.run_state(old(host)@),
    {
        proof {
            reveal(JailView::run_state);
        }
        let running = self.is_running(host)?;
        if self.jail_settings.start && !running {
            self.start(host)
        } else if !self.jail_settings.start && running {
            self.stop(host)
        } else {
            Ok(())
        }
    }

    fn provision_if_due(&self, host: &mut Host) -> (r: Result<(), Failure>)
        ensures
            (final(host)@, outcome(r)) == self@.provision_if_due(old(host)@),
    {
        proof {
            reveal(JailView::provision_if_due);
        }
        match self.zfs_ds.last_snap(host, "ready")? {
            Some(_) => Ok(()),
            None => self.provision(host),
        }
    }

    fn restart(&self, host: &mut Host, changed: bool) -> (r: Result<(), Failure>)
        ensures
            (final(host)@, outcome(r)) == self@.restart(old(host)@, changed),
    {
        proof {
            reveal(JailView::restart);
        }
        let running = self.is_running(host)?;
        if running && changed {
            self.stop(host)?;
            self.start(host)
        } else {
            Ok(())
        }
    }

    fn converge(&self, host: &mut Host, changed: bool) -> (r: Result<(), Failure>)
        ensures
            (final(host)@, outcome(r)) == self@.converge(old(host)@, changed),
    {
        proof {
            reveal(JailView::converge);
        }
        self.mount_table(host)?;
        self.enablement(host)?;
        self.run_state(host)?;
        self.provision_if_due(host)?;
        self.restart(host, changed)
    }

    /// Brings the jail to its declared state, doing only what is needed.
    pub fn apply(&self, host: &mut Host) -> (r: Result<(), Failure>)
        ensures
            (final(host)@, outcome(r)) == self@.apply(old(host)@),
            self@.wf(),
    {
        proof {
            use_type_invariant(self);
        }
        host.note0(What::Applying, self.name.as_str(), *self.noop)?;
        self.install_if_absent(host)?;
        let change = self.configure(host)?;
        let changed = match change {
            Change::Modified => true,
            _ => false,
        };
        self.converge(host, changed)
    }

    fn remove_if_file(&self, host: &mut Host, path: &str, what: What) -> (r: Result<(), Failure>)
        ensures
            (final(host)@, outcome(r)) == self@.remove_if_file(old(host)@, path@, what),
    {
        proof {
            reveal(JailView::remove_if_file);
        }
        if host.is_file(path)? {
            host.note1(what, self.name.as_str(), path, *self.noop)?;
            if !*self.noop {
                host.remove_file(path)?;
            }
        }
        Ok(())
    }

    fn destroy_snaps(&self, host: &mut Host, names: &Vec<String>) -> (r: Result<(), Failure>)
        ensures
            (final(host)@, outcome(r)) == self@.destroy_snaps(
                old(host)@,
                views(names@),
                names@.len(),
            ),
    {
        let mut i: usize = 0;
        while i < names.len()
            invariant
                i <= names.len(),
                (host@, Ok::<(), FailureView>(())) == self@.destroy_snaps(
                    old(host)@,
                    views(names@),
                    i as nat,
                ),
            decreases names.len() - i,
        {
            match self.zfs_ds.snap_destroy(host, names[i].as_str()) {
                Ok(_) => {},
                Err(e) => {
                    proof {
                        lemma_destroy_fails(
                            self@,
                            old(host)@,
                            views(names@),
                            (i + 1) as nat,
                            names@.len(),
                        );
                    }
                    return Err(e);
                },
            }
            i = i + 1;
        }
        Ok(())
    }

    fn clear_snaps(&self, host: &mut Host) -> (r: Result<(), Failure>)
        ensures
            (final(host)@, outcome(r)) == self@.clear_snaps(old(host)@),
    {
        proof {
            reveal(JailView::clear_snaps);
        }
        let names = self.zfs_ds.list_snaps(host)?;
        assert(names.deep_view() == views(names@));
        if names.len() == 0 {
            Ok(())
        } else {
            host.note0(What::DestroyingSnapshots, self.name.as_str(), *self.noop)?;
            if *self.noop {
                Ok(())
            } else {
                self.destroy_snaps(host, &names)
            }
        }
    }

    fn drop_dataset(&self, host: &mut Host) -> (r: Result<(), Failure>)
        ensures
            (final(host)@, outcome(r)) == self@.drop_dataset(old(host)@),
    {
        proof {
            reveal(JailView::drop_dataset);
        }
        host.note0(What::DestroyingDataset, self.name.as_str(), *self.noop)?;
        if *self.noop {
            Ok(())
        } else {
            self.zfs_ds.destroy(host)
        }
    }

    fn halt(&self, host: &mut Host) -> (r: Result<(), Failure>)
        ensures
            (final(host)@, outcome(r)) == self@.halt(old(host)@),
    {
        proof {
            reveal(JailView::halt);
        }
        if self.is_running(host)? {
            self.stop(host)
        } else {
            Ok(())
        }
    }

    fn unlist(&self, host: &mut Host) -> (r: Result<(), Failure>)
        ensures
            (final(host)@, outcome(r)) == self@.unlist(old(host)@),
    {
        proof {
            reveal(JailView::unlist);
        }
        if self.is_enabled(host)? {
            self.disable(host)
        } else {
            Ok(())
        }
    }

    fn dismantle(&self, host: &mut Host) -> (r: Result<(), Failure>)
        ensures
            (final(host)@, outcome(r)) == self@.dismantle(old(host)@),
    {
        proof {
            reveal(JailView::dismantle);
        }
        self.halt(host)?;
        self.unlist(host)?;
        self.remove_if_file(host, self.jail_conf_path.as_str(), What::RemovingConfig)?;
        self.remove_if_file(host, self.fstab_path.as_str(), What::RemovingFstab)?;
        self.clear_snaps(host)?;
        self.drop_dataset(host)
    }

    /// Destroys the jail and what was made for it. A jail that does not
    /// exist is left alone.
    pub fn destroy(&self, host: &mut Host) -> (r: Result<(), Failure>)
        ensures
            (final(host)@, outcome(r)) == self@.destroy(old(host)@),
            self@.wf(),
    {
        proof {
            use_type_invariant(self);
        }
        if self.present(host)? {
            self.dismantle(host)
        } else {
            host.note0(What::Missing, self.name.as_str(), *self.noop)
        }
    }
}

} // verus!
