//! Datasets of the snapshot filesystem, driven through the `zfs` tool.

use crate::cmd::{capture_spec, command, exec_spec, Cmd, CmdView};
use crate::errors::{outcome, Failure, FailureView};
use crate::host::{Event, Host, HostView, Request, RequestView, SUFFIX_LEN};
use crate::pattern::{captures, group_views, regex_compiles, regex_groups};
use crate::text::{
    contains, glue, has_part, has_prefix, lines, lines_of, number, parse_number, split,
    split_at_char,
    starts_with, trim, trimmed, views,
};
use vstd::prelude::*;

verus! {

/// A dataset, known by its path.
#[derive(Debug, PartialEq, Eq)]
pub struct DataSet {
    path: String,
}

impl View for DataSet {
    type V = Seq<char>;

    closed spec fn view(&self) -> Seq<char> {
        self.path@
    }
}

impl DeepView for DataSet {
    type V = Seq<char>;

    open spec fn deep_view(&self) -> Seq<char> {
        self@
    }
}

/// The `zfs` tool with these arguments.
pub open spec fn zfs(args: Seq<Seq<char>>) -> CmdView {
    command("zfs"@, args)
}

/// The full name of a dataset's snapshot.
pub open spec fn at(path: Seq<char>, name: Seq<char>) -> Seq<char> {
    path + "@"@ + name
}

/// What `zfs list` writes to standard error where there is no such dataset.
pub open spec fn absent_message(ds_path: Seq<char>) -> Seq<char> {
    "cannot open '"@ + ds_path + "': dataset does not exist\n"@
}

/// A command that changes the host: the change is put on record, then the
/// command is run.
pub open spec fn change_spec(h: HostView, c: CmdView, event: Event) -> (
    HostView,
    Result<(), FailureView>,
) {
    exec_spec(h.with(event), c)
}

/// Whether a dataset or snapshot exists: `zfs list` is run on it. It exists
/// where the command succeeds. It does not where the failure's text holds the
/// tool's message for an absent dataset. Any other failure stands.
pub open spec fn ds_exists_spec(h: HostView, ds_path: Seq<char>) -> (
    HostView,
    Result<bool, FailureView>,
) {
    let (h1, r) = capture_spec(h, zfs(seq!["list"@, ds_path]));
    match r {
        Ok(_) => (h1.with(Event::Exists(ds_path, true)), Ok(true)),
        Err(FailureView::Run(e)) => if contains(e.text(), absent_message(ds_path)) {
            (h1.with(Event::Exists(ds_path, false)), Ok(false))
        } else {
            (h1, Err(FailureView::Run(e)))
        },
        Err(e) => (h1, Err(e)),
    }
}

/// Creating a dataset unless it exists; the result says whether it was
/// created.
pub open spec fn create_spec(h: HostView, path: Seq<char>) -> (HostView, Result<bool, FailureView>) {
    let (h1, r) = ds_exists_spec(h, path);
    match r {
        Err(e) => (h1, Err(e)),
        Ok(true) => (h1, Ok(false)),
        Ok(false) => {
            let (h2, r2) = change_spec(h1, zfs(seq!["create"@, path]), Event::Created(path));
            match r2 {
                Ok(_) => (h2, Ok(true)),
                Err(e) => (h2, Err(e)),
            }
        },
    }
}

/// Setting a property.
pub open spec fn set_spec(h: HostView, path: Seq<char>, property: Seq<char>, value: Seq<char>) -> (
    HostView,
    Result<(), FailureView>,
) {
    change_spec(
        h,
        zfs(seq!["set"@, property + "="@ + value, path]),
        Event::PropertySet(path, property, value),
    )
}

/// Reading a property: what the tool prints, without the white space around
/// it.
pub open spec fn get_spec(h: HostView, path: Seq<char>, property: Seq<char>) -> (
    HostView,
    Result<Seq<char>, FailureView>,
) {
    let (h1, r) = capture_spec(h, zfs(seq!["get"@, "-H"@, "-o"@, "value"@, property, path]));
    match r {
        Ok(out) => (h1.with(Event::Property(path, property, trimmed(out))), Ok(trimmed(out))),
        Err(e) => (h1, Err(e)),
    }
}

/// Destroying the dataset.
pub open spec fn destroy_spec(h: HostView, path: Seq<char>) -> (HostView, Result<(), FailureView>) {
    change_spec(h, zfs(seq!["destroy"@, path]), Event::Destroyed(path))
}

/// Destroying the dataset and all that hangs on it.
pub open spec fn destroy_r_spec(h: HostView, path: Seq<char>) -> (
    HostView,
    Result<(), FailureView>,
) {
    change_spec(h, zfs(seq!["destroy"@, "-r"@, path]), Event::DestroyedAll(path))
}

/// Taking a snapshot under the given name.
pub open spec fn snap_spec(h: HostView, path: Seq<char>, name: Seq<char>) -> (
    HostView,
    Result<(), FailureView>,
) {
    change_spec(h, zfs(seq!["snapshot"@, at(path, name)]), Event::Snapshot(path, name))
}

/// Taking a snapshot named by the label, an underscore and a suffix that the
/// request yields.
pub open spec fn snap_with_spec(
    h: HostView,
    path: Seq<char>,
    label: Seq<char>,
    suffix: RequestView,
) -> (HostView, Result<(), FailureView>) {
    let (h1, r) = h.text(suffix);
    match r {
        Ok(t) => snap_spec(h1, path, label + "_"@ + t),
        Err(e) => (h1, Err(e)),
    }
}

/// Cloning a snapshot of the dataset to a new dataset.
pub open spec fn clone_spec(h: HostView, path: Seq<char>, snap: Seq<char>, dest: Seq<char>) -> (
    HostView,
    Result<Seq<char>, FailureView>,
) {
    let (h1, r) = change_spec(
        h,
        zfs(seq!["clone"@, at(path, snap), dest]),
        Event::Cloned(path, snap, dest),
    );
    match r {
        Ok(_) => (h1, Ok(dest)),
        Err(e) => (h1, Err(e)),
    }
}

/// Destroying the snapshot of the given name.
pub open spec fn snap_destroy_spec(h: HostView, path: Seq<char>, name: Seq<char>) -> (
    HostView,
    Result<(), FailureView>,
) {
    change_spec(h, zfs(seq!["destroy"@, at(path, name)]), Event::SnapshotDestroyed(path, name))
}

/// The names of the dataset's snapshots in a listing of snapshots, one full
/// name in a line: of each line that begins with the dataset's path and an
/// `@`, what follows the last `@`.
pub open spec fn snapshot_names(listing: Seq<Seq<char>>, path: Seq<char>) -> Seq<Seq<char>>
    decreases listing.len(),
{
    if listing.len() == 0 {
        Seq::empty()
    } else {
        let before = snapshot_names(listing.drop_last(), path);
        if starts_with(listing.last(), path + "@"@) {
            before.push(split(listing.last(), '@').last())
        } else {
            before
        }
    }
}

/// Listing the dataset's snapshots.
pub open spec fn list_snaps_spec(h: HostView, path: Seq<char>) -> (
    HostView,
    Result<Seq<Seq<char>>, FailureView>,
) {
    let (h1, r) = capture_spec(h, zfs(seq!["list"@, "-H"@, "-o"@, "name"@, "-t"@, "snap"@]));
    match r {
        Ok(out) => {
            let names = snapshot_names(lines(out), path);
            (h1.with(Event::Snapshots(path, names)), Ok(names))
        },
        Err(e) => (h1, Err(e)),
    }
}

/// A line of the listing with creation times: the full name of a snapshot, a
/// tab, and the time in seconds.
pub open spec fn snap_line_pattern() -> Seq<char> {
    "^(.*)@(.*)\\t(\\d*)$"@
}

/// What the groups that the line pattern has found in a line say of the
/// snapshots whose name holds `part`. The second group is the snapshot's
/// name, the third the time of its creation. Nothing is said where the name
/// does not hold `part`. A line that the pattern does not match, or whose
/// time is no number of seconds that fits 63 bits, is a failure.
pub open spec fn entry_from(
    line: Seq<char>,
    found: Option<Seq<Option<Seq<char>>>>,
    part: Seq<char>,
) -> Result<Option<(Seq<char>, int)>, FailureView> {
    match found {
        None => Err(FailureView::Parse(line)),
        Some(groups) => if groups.len() != 4 || groups[2] is None || groups[3] is None {
            Err(FailureView::Parse(line))
        } else if !contains(groups[2]->0, part) {
            Ok(None)
        } else {
            match number(groups[3]->0, 10) {
                Some(n) => if n <= i64::MAX {
                    Ok(Some((groups[2]->0, n)))
                } else {
                    Err(FailureView::Parse(line))
                },
                None => Err(FailureView::Parse(line)),
            }
        },
    }
}

/// What a line of the listing says of the dataset's snapshots whose name
/// holds `part`: nothing where the line is of another dataset, else what the
/// groups say that the line pattern finds in it.
pub open spec fn snap_entry(line: Seq<char>, path: Seq<char>, part: Seq<char>) -> Result<
    Option<(Seq<char>, int)>,
    FailureView,
> {
    if !starts_with(line, path + "@"@) {
        Ok(None)
    } else if !regex_compiles(snap_line_pattern()) {
        Err(FailureView::Pattern)
    } else {
        entry_from(line, regex_groups(snap_line_pattern(), line), part)
    }
}

/// The newest of the dataset's snapshots in a listing whose name holds
/// `part`, with its time; of two made in the same second, the one that the
/// listing gives later. The first line that fails makes the whole fail.
pub open spec fn newest(listing: Seq<Seq<char>>, path: Seq<char>, part: Seq<char>) -> Result<
    Option<(Seq<char>, int)>,
    FailureView,
>
    decreases listing.len(),
{
    if listing.len() == 0 {
        Ok(None)
    } else {
        match newest(listing.drop_last(), path, part) {
            Err(e) => Err(e),
            Ok(best) => match snap_entry(listing.last(), path, part) {
                Err(e) => Err(e),
                Ok(None) => Ok(best),
                Ok(Some(entry)) => match best {
                    Some(b) => if b.1 > entry.1 {
                        Ok(best)
                    } else {
                        Ok(Some(entry))
                    },
                    None => Ok(Some(entry)),
                },
            },
        }
    }
}

/// The name alone.
pub open spec fn name_of(entry: Option<(Seq<char>, int)>) -> Option<Seq<char>> {
    match entry {
        Some(e) => Some(e.0),
        None => None,
    }
}

/// Finding the dataset's newest snapshot whose name holds `part`.
pub open spec fn last_snap_spec(h: HostView, path: Seq<char>, part: Seq<char>) -> (
    HostView,
    Result<Option<Seq<char>>, FailureView>,
) {
    let (h1, r) = capture_spec(
        h,
        zfs(seq!["list"@, "-H"@, "-p"@, "-o"@, "name,creation"@, "-t"@, "snap"@]),
    );
    match r {
        Ok(out) => match newest(lines(out), path, part) {
            Ok(best) => (h1.with(Event::LastSnapshot(path, part, name_of(best))), Ok(name_of(best))),
            Err(e) => (h1, Err(e)),
        },
        Err(e) => (h1, Err(e)),
    }
}

fn full_name(path: &str, name: &str) -> (s: String)
    ensures
        s@ == at(path@, name@),
{
    let mut s = String::from_str(path);
    s.append("@");
    s.append(name);
    s
}

/// Puts a change on record and runs the command that makes it.
pub(crate) fn change(host: &mut Host, c: Cmd, event: Ghost<Event>) -> (r: Result<(), Failure>)
    ensures
        (final(host)@, outcome(r)) == change_spec(old(host)@, c@, event@),
{
    host.record(event);
    c.exec(host)
}

impl DataSet {
    /// The dataset at the given path.
    pub fn new(path: &str) -> (ds: DataSet)
        ensures
            ds@ == path@,
    {
        DataSet { path: String::from_str(path) }
    }

    /// The dataset's path.
    pub fn path(&self) -> (p: &String)
        ensures
            p@ == self@,
    {
        &self.path
    }

    /// Creates the dataset unless it exists; says whether it did.
    pub fn create(&self, host: &mut Host) -> (r: Result<bool, Failure>)
        ensures
            (final(host)@, outcome(r)) == create_spec(old(host)@, self@),
    {
        if self.present(host)? {
            Ok(false)
        } else {
            let c = Cmd::new("zfs").arg("create").arg(self.path.as_str());
            assert(c@.args =~= seq!["create"@, self@]);
            change(host, c, Ghost(Event::Created(self@)))?;
            Ok(true)
        }
    }

    /// Sets a property of the dataset.
    pub fn set(&self, host: &mut Host, property: &str, value: &str) -> (r: Result<(), Failure>)
        ensures
            (final(host)@, outcome(r)) == set_spec(old(host)@, self@, property@, value@),
    {
        let mut prop = String::from_str(property);
        prop.append("=");
        prop.append(value);
        let c = Cmd::new("zfs").arg("set").arg(prop.as_str()).arg(self.path.as_str());
        assert(c@.args =~= seq!["set"@, property@ + "="@ + value@, self@]);
        change(host, c, Ghost(Event::PropertySet(self@, property@, value@)))
    }

    /// Reads a property of the dataset.
    pub fn get(&self, host: &mut Host, property: &str) -> (r: Result<String, Failure>)
        ensures
            (final(host)@, outcome(r)) == get_spec(old(host)@, self@, property@),
    {
        let c = Cmd::new("zfs").arg("get").arg("-H").arg("-o").arg("value").arg(property).arg(
            self.path.as_str(),
        );
        assert(c@.args =~= seq!["get"@, "-H"@, "-o"@, "value"@, property@, self@]);
        let out = c.capture(host)?;
        let value = trim(out.as_str());
        host.record(Ghost(Event::Property(self@, property@, value@)));
        Ok(value)
    }

    /// Destroys the dataset.
    pub fn destroy(&self, host: &mut Host) -> (r: Result<(), Failure>)
        ensures
            (final(host)@, outcome(r)) == destroy_spec(old(host)@, self@),
    {
        let c = Cmd::new("zfs").arg("destroy").arg(self.path.as_str());
        assert(c@.args =~= seq!["destroy"@, self@]);
        change(host, c, Ghost(Event::Destroyed(self@)))
    }

    /// Destroys the dataset and all that hangs on it.
    pub fn destroy_r(&self, host: &mut Host) -> (r: Result<(), Failure>)
        ensures
            (final(host)@, outcome(r)) == destroy_r_spec(old(host)@, self@),
    {
        let c = Cmd::new("zfs").arg("destroy").arg("-r").arg(self.path.as_str());
        assert(c@.args =~= seq!["destroy"@, "-r"@, self@]);
        change(host, c, Ghost(Event::DestroyedAll(self@)))
    }

    /// Takes a snapshot under the given name.
    pub fn snap(&self, host: &mut Host, snap_name: &str) -> (r: Result<(), Failure>)
        ensures
            (final(host)@, outcome(r)) == snap_spec(old(host)@, self@, snap_name@),
    {
        let full = full_name(self.path.as_str(), snap_name);
        let c = Cmd::new("zfs").arg("snapshot").arg(full.as_str());
        assert(c@.args =~= seq!["snapshot"@, at(self@, snap_name@)]);
        change(host, c, Ghost(Event::Snapshot(self@, snap_name@)))
    }

    /// Takes a snapshot named by the label, an underscore, and the local
    /// time to the millisecond.
    pub fn snap_with_time(&self, host: &mut Host, snap_name: &str) -> (r: Result<(), Failure>)
        ensures
            (final(host)@, outcome(r)) == snap_with_spec(
                old(host)@,
                self@,
                snap_name@,
                RequestView::Now,
            ),
    {
        let stamp = host.text(Request::Now)?;
        let mut name = String::from_str(snap_name);
        name.append("_");
        name.append(stamp.as_str());
        self.snap(host, name.as_str())
    }

    /// Takes a snapshot named by the label, an underscore, and eight random
    /// letters and digits.
    pub fn snap_with_rand(&self, host: &mut Host, snap_name: &str) -> (r: Result<(), Failure>)
        ensures
            (final(host)@, outcome(r)) == snap_with_spec(
                old(host)@,
                self@,
                snap_name@,
                RequestView::Random(SUFFIX_LEN),
            ),
    {
        let suffix = host.text(Request::Random(SUFFIX_LEN))?;
        let mut name = String::from_str(snap_name);
        name.append("_");
        name.append(suffix.as_str());
        self.snap(host, name.as_str())
    }

    /// Clones the snapshot of the given name to a new dataset, and hands
    /// that dataset back.
    pub fn clone(&self, host: &mut Host, snap: &str, dest: &str) -> (r: Result<DataSet, Failure>)
        ensures
            (final(host)@, outcome(r)) == clone_spec(old(host)@, self@, snap@, dest@),
    {
        let full = full_name(self.path.as_str(), snap);
        let c = Cmd::new("zfs").arg("clone").arg(full.as_str()).arg(dest);
        assert(c@.args =~= seq!["clone"@, at(self@, snap@), dest@]);
        change(host, c, Ghost(Event::Cloned(self@, snap@, dest@)))?;
        Ok(DataSet::new(dest))
    }

    /// Whether the dataset exists.
    pub fn present(&self, host: &mut Host) -> (r: Result<bool, Failure>)
        ensures
            (final(host)@, outcome(r)) == ds_exists_spec(old(host)@, self@),
    {
        self.ds_exists(host, self.path.as_str())
    }

    /// Whether the dataset has a snapshot of that very name.
    pub fn snap_exists(&self, host: &mut Host, snap_name: &str) -> (r: Result<bool, Failure>)
        ensures
            (final(host)@, outcome(r)) == ds_exists_spec(old(host)@, at(self@, snap_name@)),
    {
        let full = full_name(self.path.as_str(), snap_name);
        self.ds_exists(host, full.as_str())
    }

    /// The names of the dataset's snapshots, in the order of the listing.
    pub fn list_snaps(&self, host: &mut Host) -> (r: Result<Vec<String>, Failure>)
        ensures
            (final(host)@, outcome(r)) == list_snaps_spec(old(host)@, self@),
    {
        let c = Cmd::new("zfs").arg("list").arg("-H").arg("-o").arg("name").arg("-t").arg("snap");
        assert(c@.args =~= seq!["list"@, "-H"@, "-o"@, "name"@, "-t"@, "snap"@]);
        let out = c.capture(host)?;
        let listing = lines_of(out.as_str());
        let mut names: Vec<String> = Vec::new();
        let mut i: usize = 0;
        while i < listing.len()
            invariant
                i <= listing.len(),
                views(names@) == snapshot_names(views(listing@).take(i as int), self@),
            decreases listing.len() - i,
        {
            proof {
                let now = views(listing@).take(i + 1);
                assert(now.drop_last() == views(listing@).take(i as int));
                assert(now.last() == listing@[i as int]@);
            }
            if has_prefix(listing[i].as_str(), glue(self.path.as_str(), "@").as_str()) {
                let mut parts = split_at_char(listing[i].as_str(), '@');
                assert(views(parts@).len() > 0);
                let name = parts.pop().unwrap();
                assert(views(names@.push(name)) == views(names@).push(name@));
                names.push(name);
            }
            i = i + 1;
        }
        assert(views(listing@).take(listing.len() as int) == views(listing@));
        assert(names.deep_view() == views(names@));
        host.record(Ghost(Event::Snapshots(self@, views(names@))));
        Ok(names)
    }

    /// The dataset's newest snapshot whose name holds `part`, by the time of
    /// creation that the tool reports.
    pub fn last_snap(&self, host: &mut Host, part: &str) -> (r: Result<Option<String>, Failure>)
        ensures
            (final(host)@, outcome(r)) == last_snap_spec(old(host)@, self@, part@),
    {
        let c = Cmd::new("zfs").arg("list").arg("-H").arg("-p").arg("-o").arg("name,creation").arg(
            "-t",
        ).arg("snap");
        assert(c@.args =~= seq![
            "list"@,
            "-H"@,
            "-p"@,
            "-o"@,
            "name,creation"@,
            "-t"@,
            "snap"@,
        ]);
        let out = c.capture(host)?;
        let listing = lines_of(out.as_str());
        let best = self.newest_in(&listing, part)?;
        let name = match best {
            Some(entry) => Some(entry.0),
            None => None,
        };
        host.record(Ghost(Event::LastSnapshot(self@, part@, name.deep_view())));
        Ok(name)
    }

    /// Destroys the snapshot of the given name.
    pub fn snap_destroy(&self, host: &mut Host, snap_name: &str) -> (r: Result<(), Failure>)
        ensures
            (final(host)@, outcome(r)) == snap_destroy_spec(old(host)@, self@, snap_name@),
    {
        let full = full_name(self.path.as_str(), snap_name);
        let c = Cmd::new("zfs").arg("destroy").arg(full.as_str());
        assert(c@.args =~= seq!["destroy"@, at(self@, snap_name@)]);
        change(host, c, Ghost(Event::SnapshotDestroyed(self@, snap_name@)))
    }

    /// Whether the dataset or snapshot of the given full name exists.
    pub fn ds_exists(&self, host: &mut Host, ds_path: &str) -> (r: Result<bool, Failure>)
        ensures
            (final(host)@, outcome(r)) == ds_exists_spec(old(host)@, ds_path@),
    {
        let c = Cmd::new("zfs").arg("list").arg(ds_path);
        assert(c@.args =~= seq!["list"@, ds_path@]);
        match c.capture(host) {
            Ok(_) => {
                host.record(Ghost(Event::Exists(ds_path@, true)));
                Ok(true)
            },
            Err(Failure::Run(e)) => {
                let mut message = String::from_str("cannot open '");
                message.append(ds_path);
                message.append("': dataset does not exist\n");
                if has_part(e.to_text().as_str(), message.as_str()) {
                    host.record(Ghost(Event::Exists(ds_path@, false)));
                    Ok(false)
                } else {
                    Err(Failure::Run(e))
                }
            },
            Err(e) => Err(e),
        }
    }

    /// What a listing with creation times says of the newest snapshot whose
    /// name holds `part`.
    pub fn newest_in(&self, listing: &Vec<String>, part: &str) -> (r: Result<
        Option<(String, u64)>,
        Failure,
    >)
        ensures
            r matches Ok(Some(e)) ==> newest(views(listing@), self@, part@) == Ok::<
                Option<(Seq<char>, int)>,
                FailureView,
            >(Some((e.0@, e.1 as int))),
            r matches Ok(None) ==> newest(views(listing@), self@, part@) == Ok::<
                Option<(Seq<char>, int)>,
                FailureView,
            >(None),
            r matches Err(e) ==> newest(views(listing@), self@, part@) == Err::<
                Option<(Seq<char>, int)>,
                FailureView,
            >(e@),
    {
        let mut best: Option<(String, u64)> = None;
        let mut i: usize = 0;
        while i < listing.len()
            invariant
                i <= listing.len(),
                best matches Some(e) ==> newest(views(listing@).take(i as int), self@, part@)
                    == Ok::<Option<(Seq<char>, int)>, FailureView>(Some((e.0@, e.1 as int))),
                best is None ==> newest(views(listing@).take(i as int), self@, part@) == Ok::<
                    Option<(Seq<char>, int)>,
                    FailureView,
                >(None),
            decreases listing.len() - i,
        {
            proof {
                let now = views(listing@).take(i + 1);
                assert(now.drop_last() == views(listing@).take(i as int));
                assert(now.last() == listing@[i as int]@);
            }
            match self.entry_of(listing[i].as_str(), part) {
                Err(e) => {
                    proof {
                        lemma_newest_fails(views(listing@), i + 1, self@, part@);
                    }
                    return Err(e);
                },
                Ok(None) => {},
                Ok(Some(entry)) => {
                    let keep = match &best {
                        Some(b) => b.1 > entry.1,
                        None => false,
                    };
                    if !keep {
                        best = Some(entry);
                    }
                },
            }
            i = i + 1;
        }
        assert(views(listing@).take(listing.len() as int) == views(listing@));
        Ok(best)
    }

    /// What one line of a listing with creation times says. See `snap_entry`.
    pub fn entry_of(&self, line: &str, part: &str) -> (r: Result<Option<(String, u64)>, Failure>)
        ensures
            r matches Ok(Some(e)) ==> snap_entry(line@, self@, part@) == Ok::<
                Option<(Seq<char>, int)>,
                FailureView,
            >(Some((e.0@, e.1 as int))),
            r matches Ok(None) ==> snap_entry(line@, self@, part@) == Ok::<
                Option<(Seq<char>, int)>,
                FailureView,
            >(None),
            r matches Err(e) ==> snap_entry(line@, self@, part@) == Err::<
                Option<(Seq<char>, int)>,
                FailureView,
            >(e@),
    {
        if !has_prefix(line, glue(self.path.as_str(), "@").as_str()) {
            return Ok(None);
        }
        match captures("^(.*)@(.*)\\t(\\d*)$", line) {
            Ok(found) => Self::entry_from(line, found, part),
            Err(_) => Err(Failure::Pattern),
        }
    }

    /// What the groups that the line pattern has found in a line say. See
    /// the specification of the same name.
    pub fn entry_from(line: &str, found: Option<Vec<Option<String>>>, part: &str) -> (r: Result<
        Option<(String, u64)>,
        Failure,
    >)
        ensures
            r matches Ok(Some(e)) ==> entry_from(
                line@,
                match found {
                    Some(g) => Some(group_views(g@)),
                    None => None,
                },
                part@,
            ) == Ok::<Option<(Seq<char>, int)>, FailureView>(Some((e.0@, e.1 as int))),
            r matches Ok(None) ==> entry_from(
                line@,
                match found {
                    Some(g) => Some(group_views(g@)),
                    None => None,
                },
                part@,
            ) == Ok::<Option<(Seq<char>, int)>, FailureView>(None),
            r matches Err(e) ==> entry_from(
                line@,
                match found {
                    Some(g) => Some(group_views(g@)),
                    None => None,
                },
                part@,
            ) == Err::<Option<(Seq<char>, int)>, FailureView>(e@),
    {
        let mut groups = match found {
            Some(groups) => groups,
            None => {
                return Err(Failure::Parse(String::from_str(line)));
            },
        };
        if groups.len() != 4 {
            return Err(Failure::Parse(String::from_str(line)));
        }
        let ghost all = groups@;
        let time = groups.pop().unwrap();
        let name = groups.pop().unwrap();
        assert(time == all[3] && name == all[2]);
        match (name, time) {
            (Some(name), Some(time)) => {
                if !has_part(name.as_str(), part) {
                    return Ok(None);
                }
                match parse_number(time.as_str(), 10, 0x7fff_ffff_ffff_ffff) {
                    Some(n) => Ok(Some((name, n))),
                    None => Err(Failure::Parse(String::from_str(line))),
                }
            },
            _ => Err(Failure::Parse(String::from_str(line))),
        }
    }
}

/// Once a prefix of the listing fails, the whole listing fails the same way.
proof fn lemma_newest_fails(listing: Seq<Seq<char>>, k: int, path: Seq<char>, part: Seq<char>)
    requires
        0 <= k <= listing.len(),
        newest(listing.take(k), path, part) is Err,
    ensures
        newest(listing, path, part) == newest(listing.take(k), path, part),
    decreases listing.len() - k,
{
    if k < listing.len() {
        assert(listing.take(k + 1).drop_last() == listing.take(k));
        lemma_newest_fails(listing, k + 1, path, part);
    } else {
        assert(listing.take(k) == listing);
    }
}

} // verus!
