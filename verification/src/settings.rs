//! What the configuration declares.

use crate::errors::{outcome, Failure, FailureView, JailError};
use crate::host::{Host, HostView};
use crate::jail::{provisioners_of, Jail, JailView};
use crate::maps::{
    conf_entries, jail_entries, jail_rows, lookup, provisioner_entries, provisioner_get,
    provisioner_rows, row, source_entries, source_get, source_rows, volume_entries, volume_get,
};
use crate::provisioner::{validate_spec, Provisioner};
use crate::source::Source;
use crate::template::fstab::pointed;
use crate::text::views;
use crate::volume::Volume;
use indexmap::IndexMap;
use vstd::prelude::*;

verus! {

/// The value of an option in the jail manager's configuration.
#[derive(Clone, Debug, PartialEq)]
pub enum JailConfValue {
    String(String),
    Bool(bool),
    Vec(Vec<String>),
    Int(i32),
    Path(String),
}

/// What is declared of one jail.
#[derive(Debug)]
pub struct JailSettings {
    /// The name of the source that installs the jail.
    pub source: String,
    /// Whether the jail is to run.
    pub start: bool,
    /// Whether the jail is to be started at boot.
    pub enable: bool,
    /// Whether the jail is to be stopped once it is provisioned.
    pub stop_after: bool,
    /// The jail's own options.
    pub conf: IndexMap<String, JailConfValue>,
    /// The names of its provisioners, in the order in which they run.
    pub provisioners: Vec<String>,
    /// The names of its volumes, in the order of the mount table.
    pub volumes: Vec<String>,
}

/// The whole configuration.
#[derive(Debug)]
pub struct Settings {
    /// The dataset below which each jail has its own.
    pub jails_dataset: String,
    /// The directory below which each jail has its own.
    pub jails_mountpoint: String,
    /// The options that hold for every jail.
    pub jail_conf_defaults: IndexMap<String, JailConfValue>,
    pub jail: IndexMap<String, JailSettings>,
    pub source: IndexMap<String, Source>,
    pub provisioner: IndexMap<String, Provisioner>,
    pub volume: IndexMap<String, Volume>,
    /// Whether this is a dry run.
    pub noop: bool,
}

/// What a row of entries has under the first `n` of the names, in the order
/// of the names; or the first name that it has nothing under.
pub open spec fn named<V>(entries: Seq<(Seq<char>, V)>, names: Seq<Seq<char>>, n: nat) -> Result<
    Seq<V>,
    Seq<char>,
>
    decreases n,
{
    if n == 0 {
        Ok(Seq::empty())
    } else {
        match named(entries, names, (n - 1) as nat) {
            Err(name) => Err(name),
            Ok(found) => match lookup(entries, names[n - 1]) {
                Some(v) => Ok(found.push(v)),
                None => Err(names[n - 1]),
            },
        }
    }
}

/// What is reported where a jail names something that is not declared.
pub open spec fn unknown(jail: Seq<char>, kind: Seq<char>, name: Seq<char>) -> FailureView {
    FailureView::Jail(jail + ": unknown "@ + kind + ": "@ + name)
}

/// The jail that an entry of the configuration declares: its source, its
/// provisioners and its volumes are those declared under the names that it
/// gives. A name that is not declared fails: the source's first, then the
/// first such provisioner's, then the first such volume's.
pub open spec fn declared(s: Settings, name: Seq<char>, js: JailSettings) -> Result<
    JailView,
    FailureView,
> {
    match lookup(source_entries(s.source), js.source@) {
        None => Err(unknown(name, "source"@, js.source@)),
        Some(source) => match named(
            provisioner_entries(s.provisioner),
            views(js.provisioners@),
            js.provisioners@.len(),
        ) {
            Err(p) => Err(unknown(name, "provisioner"@, p)),
            Ok(provisioners) => match named(
                volume_entries(s.volume),
                views(js.volumes@),
                js.volumes@.len(),
            ) {
                Err(v) => Err(unknown(name, "volume"@, v)),
                Ok(volumes) => Ok(
                    JailView {
                        name,
                        mountpoint: s.jails_mountpoint@ + "/"@ + name,
                        conf_path: "/etc/jail."@ + name + ".conf"@,
                        fstab_path: "/etc/fstab."@ + name,
                        dataset: s.jails_dataset@ + "/"@ + name,
                        noop: s.noop,
                        start: js.start,
                        enable: js.enable,
                        stop_after: js.stop_after,
                        defaults: conf_entries(s.jail_conf_defaults),
                        conf: conf_entries(js.conf),
                        source,
                        provisioners,
                        volumes,
                    },
                ),
            },
        },
    }
}

/// The first `n` declared jails in their order, or the failure of the first
/// that names something that is not declared.
pub open spec fn jails(s: Settings, n: nat) -> Result<Seq<JailView>, FailureView>
    decreases n,
{
    if n == 0 {
        Ok(Seq::empty())
    } else {
        match jails(s, (n - 1) as nat) {
            Err(e) => Err(e),
            Ok(before) => match declared(
                s,
                jail_entries(s.jail)[n - 1].0,
                jail_entries(s.jail)[n - 1].1,
            ) {
                Err(e) => Err(e),
                Ok(j) => Ok(before.push(j)),
            },
        }
    }
}

/// What a row of jails holds.
pub open spec fn jail_views(v: Seq<Jail>) -> Seq<JailView> {
    Seq::new(v.len(), |i: int| v[i]@)
}

/// Checking the first `n` provisioners in their order, up to the first whose
/// settings cannot work.
pub open spec fn validate_all(
    entries: Seq<(Seq<char>, Provisioner)>,
    h: HostView,
    n: nat,
) -> (HostView, Result<(), FailureView>)
    decreases n,
{
    if n == 0 {
        (h, Ok(()))
    } else {
        let (h1, r) = validate_all(entries, h, (n - 1) as nat);
        match r {
            Err(e) => (h1, Err(e)),
            Ok(_) => validate_spec(entries[n - 1].1, h1),
        }
    }
}

/// Once a name is missing, it stays the one reported however many follow.
proof fn lemma_named_fails<V>(entries: Seq<(Seq<char>, V)>, names: Seq<Seq<char>>, k: nat, n: nat)
    requires
        k <= n,
        named(entries, names, k) is Err,
    ensures
        named(entries, names, n) == named(entries, names, k),
    decreases n,
{
    if k < n {
        lemma_named_fails(entries, names, k, (n - 1) as nat);
    }
}

/// Once a jail fails, the failure stands however many follow.
proof fn lemma_jails_fail(s: Settings, k: nat, n: nat)
    requires
        k <= n,
        jails(s, k) is Err,
    ensures
        jails(s, n) == jails(s, k),
    decreases n,
{
    if k < n {
        lemma_jails_fail(s, k, (n - 1) as nat);
    }
}

/// Once a provisioner's settings cannot work, the failure stands however
/// many follow.
proof fn lemma_validate_fails(entries: Seq<(Seq<char>, Provisioner)>, h: HostView, k: nat, n: nat)
    requires
        k <= n,
        validate_all(entries, h, k).1 is Err,
    ensures
        validate_all(entries, h, n) == validate_all(entries, h, k),
    decreases n,
{
    if k < n {
        lemma_validate_fails(entries, h, k, (n - 1) as nat);
    }
}

/// The provisioners that are declared under the names, or the first name
/// that none is declared under.
pub fn provisioners_named<'a>(m: &'a IndexMap<String, Provisioner>, names: &Vec<String>) -> (r:
    Result<Vec<&'a Provisioner>, String>)
    ensures
        r matches Ok(found) ==> named(provisioner_entries(*m), views(names@), names@.len())
            == Ok::<Seq<Provisioner>, Seq<char>>(provisioners_of(found@)),
        r matches Err(name) ==> named(provisioner_entries(*m), views(names@), names@.len())
            == Err::<Seq<Provisioner>, Seq<char>>(name@),
{
    let mut found: Vec<&'a Provisioner> = Vec::new();
    let mut i: usize = 0;
    assert(provisioners_of(found@) == Seq::<Provisioner>::empty());
    while i < names.len()
        invariant
            i <= names.len(),
            named(provisioner_entries(*m), views(names@), i as nat) == Ok::<
                Seq<Provisioner>,
                Seq<char>,
            >(provisioners_of(found@)),
        decreases names.len() - i,
    {
        match provisioner_get(m, names[i].as_str()) {
            Some(v) => {
                assert(provisioners_of(found@.push(v)) == provisioners_of(found@).push(*v));
                found.push(v);
            },
            None => {
                proof {
                    lemma_named_fails(
                        provisioner_entries(*m),
                        views(names@),
                        (i + 1) as nat,
                        names@.len(),
                    );
                }
                return Err(names[i].clone());
            },
        }
        i = i + 1;
    }
    Ok(found)
}

/// The volumes that are declared under the names, or the first name that
/// none is declared under.
pub fn volumes_named<'a>(m: &'a IndexMap<String, Volume>, names: &Vec<String>) -> (r: Result<
    Vec<&'a Volume>,
    String,
>)
    ensures
        r matches Ok(found) ==> named(volume_entries(*m), views(names@), names@.len()) == Ok::<
            Seq<Volume>,
            Seq<char>,
        >(pointed(found@)),
        r matches Err(name) ==> named(volume_entries(*m), views(names@), names@.len()) == Err::<
            Seq<Volume>,
            Seq<char>,
        >(name@),
{
    let mut found: Vec<&'a Volume> = Vec::new();
    let mut i: usize = 0;
    assert(pointed(found@) == Seq::<Volume>::empty());
    while i < names.len()
        invariant
            i <= names.len(),
            named(volume_entries(*m), views(names@), i as nat) == Ok::<Seq<Volume>, Seq<char>>(
                pointed(found@),
            ),
        decreases names.len() - i,
    {
        match volume_get(m, names[i].as_str()) {
            Some(v) => {
                assert(pointed(found@.push(v)) == pointed(found@).push(*v));
                found.push(v);
            },
            None => {
                proof {
                    lemma_named_fails(
                        volume_entries(*m),
                        views(names@),
                        (i + 1) as nat,
                        names@.len(),
                    );
                }
                return Err(names[i].clone());
            },
        }
        i = i + 1;
    }
    Ok(found)
}

fn unknown_name(jail: &str, kind: &str, name: &str) -> (e: Failure)
    ensures
        e@ == unknown(jail@, kind@, name@),
{
    let mut message = String::from_str(jail);
    message.append(": unknown ");
    message.append(kind);
    message.append(": ");
    message.append(name);
    Failure::Jail(JailError(message))
}

impl Settings {
    /// The jail that an entry declares, with what it names looked up.
    pub fn jail<'a>(&'a self, name: &str, jail_settings: &'a JailSettings) -> (r: Result<
        Jail<'a>,
        Failure,
    >)
        ensures
            r matches Ok(j) ==> declared(*self, name@, *jail_settings) == Ok::<
                JailView,
                FailureView,
            >(j@),
            r matches Err(e) ==> declared(*self, name@, *jail_settings) == Err::<
                JailView,
                FailureView,
            >(e@),
    {
        let source = match source_get(&self.source, jail_settings.source.as_str()) {
            Some(source) => source,
            None => {
                return Err(unknown_name(name, "source", jail_settings.source.as_str()));
            },
        };
        let provisioners = match provisioners_named(
            &self.provisioner,
            &jail_settings.provisioners,
        ) {
            Ok(found) => found,
            Err(p) => {
                return Err(unknown_name(name, "provisioner", p.as_str()));
            },
        };
        let volumes = match volumes_named(&self.volume, &jail_settings.volumes) {
            Ok(found) => found,
            Err(v) => {
                return Err(unknown_name(name, "volume", v.as_str()));
            },
        };
        Ok(
            Jail::new(
                name,
                self.jails_mountpoint.as_str(),
                self.jails_dataset.as_str(),
                source,
                jail_settings,
                &self.jail_conf_defaults,
                provisioners,
                &self.noop,
                volumes,
            ),
        )
    }

    /// The declared jails, in the order of the configuration.
    pub fn to_jails<'a>(&'a self) -> (r: Result<Vec<Jail<'a>>, Failure>)
        ensures
            r matches Ok(v) ==> jails(*self, jail_entries(self.jail).len()) == Ok::<
                Seq<JailView>,
                FailureView,
            >(jail_views(v@)),
            r matches Err(e) ==> jails(*self, jail_entries(self.jail).len()) == Err::<
                Seq<JailView>,
                FailureView,
            >(e@),
    {
        let rows = jail_rows(&self.jail);
        let mut out: Vec<Jail<'a>> = Vec::new();
        let mut i: usize = 0;
        assert(jail_views(out@) == Seq::<JailView>::empty());
        while i < rows.len()
            invariant
                i <= rows.len(),
                row(rows@) == jail_entries(self.jail),
                jails(*self, i as nat) == Ok::<Seq<JailView>, FailureView>(jail_views(out@)),
            decreases rows.len() - i,
        {
            assert(row(rows@)[i as int] == (rows@[i as int].0@, *rows@[i as int].1));
            match self.jail(rows[i].0.as_str(), rows[i].1) {
                Ok(j) => {
                    assert(jail_views(out@.push(j)) == jail_views(out@).push(j@));
                    out.push(j);
                },
                Err(e) => {
                    proof {
                        lemma_jails_fail(*self, (i + 1) as nat, jail_entries(self.jail).len());
                    }
                    return Err(e);
                },
            }
            i = i + 1;
        }
        Ok(out)
    }

    /// The configuration as it was loaded, for a dry run or not, once the
    /// settings of every provisioner are checked.
    pub fn new(loaded: Settings, noop: bool, host: &mut Host) -> (r: Result<Settings, Failure>)
        ensures
            final(host)@ == validate_all(
                provisioner_entries(loaded.provisioner),
                old(host)@,
                provisioner_entries(loaded.provisioner).len(),
            ).0,
            r matches Ok(s) ==> s == (Settings { noop, ..loaded }) && validate_all(
                provisioner_entries(loaded.provisioner),
                old(host)@,
                provisioner_entries(loaded.provisioner).len(),
            ).1 is Ok,
            r matches Err(e) ==> validate_all(
                provisioner_entries(loaded.provisioner),
                old(host)@,
                provisioner_entries(loaded.provisioner).len(),
            ).1 == Err::<(), FailureView>(e@),
    {
        let mut settings = loaded;
        settings.noop = noop;
        settings.validate(host)?;
        Ok(settings)
    }

    /// Checks the settings of every declared source and provisioner, in the
    /// order of the configuration, before any jail is touched. The settings
    /// of a source can always work.
    pub fn validate(&self, host: &mut Host) -> (r: Result<(), Failure>)
        ensures
            (final(host)@, outcome(r)) == validate_all(
                provisioner_entries(self.provisioner),
                old(host)@,
                provisioner_entries(self.provisioner).len(),
            ),
    {
        let sources = source_rows(&self.source);
        let mut k: usize = 0;
        while k < sources.len()
            invariant
                k <= sources.len(),
                *host == *old(host),
            decreases sources.len() - k,
        {
            sources[k].1.validate()?;
            k = k + 1;
        }
        let rows = provisioner_rows(&self.provisioner);
        let mut i: usize = 0;
        while i < rows.len()
            invariant
                i <= rows.len(),
                row(rows@) == provisioner_entries(self.provisioner),
                (host@, Ok::<(), FailureView>(())) == validate_all(
                    provisioner_entries(self.provisioner),
                    old(host)@,
                    i as nat,
                ),
            decreases rows.len() - i,
        {
            assert(row(rows@)[i as int] == (rows@[i as int].0@, *rows@[i as int].1));
            match rows[i].1.validate(host) {
                Ok(_) => {},
                Err(e) => {
                    proof {
                        lemma_validate_fails(
                            provisioner_entries(self.provisioner),
                            old(host)@,
                            (i + 1) as nat,
                            provisioner_entries(self.provisioner).len(),
                        );
                    }
                    return Err(e);
                },
            }
            i = i + 1;
        }
        Ok(())
    }
}

/// The value for an option that is left out and holds unless said otherwise.
pub fn default_true() -> (b: bool)
    ensures
        b,
{
    true
}

} // verus!
