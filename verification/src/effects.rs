//! What the operations on a jail come to on a host that answers truthfully.

use crate::errors::FailureView;
use crate::host::{Event, HostView};
use crate::jail::{pre_provision, ready, Change, JailView};
use crate::provisioner::{provision_spec, Provisioner};
use crate::source::Source;
use crate::text::lemma_contains_prefix;
use crate::world::{changes, group_events, last_with, without, World};
use crate::zfs::{ds_exists_spec, last_snap_spec, list_snaps_spec};
use vstd::prelude::*;

verus! {

/// What a world holds of one jail.
pub ghost struct State {
    /// Whether the jail's dataset exists.
    pub present: bool,
    /// Whether a snapshot marks the jail as provisioned.
    pub marked: bool,
    /// Whether the jail's dataset has no snapshot.
    pub bare: bool,
    /// Whether the jail runs.
    pub running: bool,
    /// Whether the jail is started at boot.
    pub enabled: bool,
    /// What the jail's configuration file holds, if it is there.
    pub conf: Option<Seq<char>>,
    /// What the jail's mount table holds, if it is there.
    pub fstab: Option<Seq<char>>,
}

/// What a file holds in a world, if it is there.
pub open spec fn file_at(w: World, path: Seq<char>) -> Option<Seq<char>> {
    if w.files.contains_key(path) {
        Some(w.files[path])
    } else {
        None
    }
}

/// What a world holds of a jail.
pub open spec fn state_of(j: JailView, w: World) -> State {
    State {
        present: w.datasets.contains(j.dataset),
        marked: last_with(w.snaps(j.dataset), ready()) is Some,
        bare: w.snaps(j.dataset).len() == 0,
        running: w.running.contains(j.name),
        enabled: w.enabled.contains(j.name),
        conf: file_at(w, j.conf_path),
        fstab: file_at(w, j.fstab_path),
    }
}

/// What the world holds of a jail once the changes on a host's record are
/// made.
pub open spec fn now(j: JailView, w: World, h: HostView) -> State {
    state_of(j, w.after(h.events))
}

/// Whether a jail is in the state that is declared for it: it exists and is
/// marked as provisioned, its two files hold what they are to hold, and it
/// runs and is started at boot just where that is declared.
pub open spec fn converged(j: JailView, s: State) -> bool {
    &&& s.present
    &&& s.marked
    &&& s.conf == Some(j.conf_text())
    &&& (j.volumes.len() > 0 ==> s.fstab == Some(j.fstab_text()))
    &&& s.enabled == j.enable
    &&& s.running == j.start
}

/// A record that is faithful once an operation has run was faithful before.
pub open spec fn keeps(w: World, h: HostView, h1: HostView) -> bool {
    w.faithful(h1.events) ==> w.faithful(h.events)
}

/// An operation has left the world as it was.
pub open spec fn inert(w: World, h: HostView, h1: HostView) -> bool {
    &&& keeps(w, h, h1)
    &&& w.after(h1.events) == w.after(h.events)
}

/// An operation has changed nothing, and has not tried to.
pub open spec fn quiet(w: World, h: HostView, h1: HostView) -> bool {
    &&& inert(w, h, h1)
    &&& changes(h1.events) == changes(h.events)
}

/// Whether a failure is one that the host has handed in: a command that
/// failed, something that could not be read or written, an answer that does
/// not fit or cannot be read, or an answer that is still missing.
pub open spec fn of_host(e: FailureView) -> bool {
    e is Suspended || e is Run || e is Io || e is Reply || e is Parse || e is Pattern
}

/// Whether a result is a success or a failure that the host has handed in.
pub open spec fn host_only<T>(r: Result<T, FailureView>) -> bool {
    r matches Err(e) ==> of_host(e)
}

/// A question about a dataset changes nothing, and a truthful answer tells
/// whether the dataset exists.
pub proof fn lemma_ds_exists(h: HostView, path: Seq<char>, w: World)
    ensures
        quiet(w, h, ds_exists_spec(h, path).0),
        host_only(ds_exists_spec(h, path).1),
        w.faithful(ds_exists_spec(h, path).0.events) ==> (ds_exists_spec(h, path).1 matches Ok(b)
            ==> b == w.after(h.events).datasets.contains(path)),
{
    broadcast use group_events;

}

/// A listing of snapshots fails only where a line cannot be read.
proof fn lemma_newest_fails_on_lines(listing: Seq<Seq<char>>, path: Seq<char>, part: Seq<char>)
    ensures
        host_only(crate::zfs::newest(listing, path, part)),
    decreases listing.len(),
{
    if listing.len() > 0 {
        lemma_newest_fails_on_lines(listing.drop_last(), path, part);
    }
}

/// The question for the newest marked snapshot changes nothing and is one
/// request; a truthful answer is the newest snapshot whose name holds the
/// mark.
pub proof fn lemma_last_snap(h: HostView, path: Seq<char>, part: Seq<char>, w: World)
    ensures
        quiet(w, h, last_snap_spec(h, path, part).0),
        host_only(last_snap_spec(h, path, part).1),
        w.faithful(last_snap_spec(h, path, part).0.events) ==> (last_snap_spec(
            h,
            path,
            part,
        ).1 matches Ok(found) ==> found == last_with(w.after(h.events).snaps(path), part)),
        last_snap_spec(h, path, part).1 is Ok ==> last_snap_spec(h, path, part).0.asked.len()
            == h.asked.len() + 1,
{
    broadcast use group_events;

    let (h1, r) = crate::cmd::capture_spec(
        h,
        crate::zfs::zfs(
            seq!["list"@, "-H"@, "-p"@, "-o"@, "name,creation"@, "-t"@, "snap"@],
        ),
    );
    if r is Ok {
        lemma_newest_fails_on_lines(crate::text::lines(r->Ok_0), path, part);
    }
}

/// The listing of snapshots changes nothing, and a truthful answer is the
/// dataset's snapshots.
pub proof fn lemma_list_snaps(h: HostView, path: Seq<char>, w: World)
    ensures
        quiet(w, h, list_snaps_spec(h, path).0),
        host_only(list_snaps_spec(h, path).1),
        w.faithful(list_snaps_spec(h, path).0.events) ==> (list_snaps_spec(h, path).1 matches Ok(
            names,
        ) ==> names == w.after(h.events).snaps(path)),
{
    broadcast use group_events;

}

/// Asking whether the jail runs changes nothing, and a truthful answer tells
/// whether it does.
pub proof fn lemma_is_running(j: JailView, h: HostView, w: World)
    ensures
        quiet(w, h, j.is_running(h).0),
        host_only(j.is_running(h).1),
        w.faithful(j.is_running(h).0.events) ==> (j.is_running(h).1 matches Ok(b) ==> b == now(
            j,
            w,
            h,
        ).running),
{
    broadcast use group_events;

}

/// Asking whether the jail is started at boot changes nothing, and a
/// truthful answer tells whether it is.
pub proof fn lemma_is_enabled(j: JailView, h: HostView, w: World)
    ensures
        quiet(w, h, j.is_enabled(h).0),
        host_only(j.is_enabled(h).1),
        w.faithful(j.is_enabled(h).0.events) ==> (j.is_enabled(h).1 matches Ok(b) ==> b == now(
            j,
            w,
            h,
        ).enabled),
{
    broadcast use group_events;

}

/// Starting and stopping: in a dry run nothing is changed; else the jail
/// runs, or does not, afterwards.
pub proof fn lemma_start_stop(j: JailView, h: HostView, w: World)
    ensures
        keeps(w, h, j.start(h).0),
        keeps(w, h, j.stop(h).0),
        host_only(j.start(h).1),
        host_only(j.stop(h).1),
        j.noop ==> quiet(w, h, j.start(h).0) && quiet(w, h, j.stop(h).0),
        !j.noop && j.start(h).1 is Ok ==> now(j, w, j.start(h).0) == (State {
            running: true,
            ..now(j, w, h)
        }) && j.start(h).0.events == h.events.push(Event::Started(j.name)),
        !j.noop && j.stop(h).1 is Ok ==> now(j, w, j.stop(h).0) == (State {
            running: false,
            ..now(j, w, h)
        }) && j.stop(h).0.events == h.events.push(Event::Stopped(j.name)),
{
    broadcast use group_events;

}

/// Enabling and disabling: in a dry run nothing is changed; else the jail is
/// started at boot, or is not, afterwards.
pub proof fn lemma_enable_disable(j: JailView, h: HostView, w: World)
    ensures
        keeps(w, h, j.enable(h).0),
        keeps(w, h, j.disable(h).0),
        host_only(j.enable(h).1),
        host_only(j.disable(h).1),
        j.noop ==> quiet(w, h, j.enable(h).0) && quiet(w, h, j.disable(h).0),
        !j.noop && j.enable(h).1 is Ok ==> now(j, w, j.enable(h).0) == (State {
            enabled: true,
            ..now(j, w, h)
        }),
        !j.noop && j.disable(h).1 is Ok ==> now(j, w, j.disable(h).0) == (State {
            enabled: false,
            ..now(j, w, h)
        }),
{
    broadcast use group_events;

}

/// A snapshot's full name is not its dataset's.
pub proof fn lemma_at_differs(dataset: Seq<char>, name: Seq<char>)
    ensures
        crate::zfs::at(dataset, name) != dataset,
{
    reveal_strlit("@");
    assert(crate::zfs::at(dataset, name).len() == dataset.len() + 1 + name.len());
}

/// Taking a snapshot: in a dry run nothing is changed; else the dataset has
/// a snapshot afterwards, a mark that was there is still there, and a
/// snapshot that is taken as a mark is one.
pub proof fn lemma_snap(j: JailView, h: HostView, label: Seq<char>, w: World)
    ensures
        keeps(w, h, j.snap(h, label).0),
        host_only(j.snap(h, label).1),
        j.noop ==> quiet(w, h, j.snap(h, label).0),
        !j.noop && j.snap(h, label).1 is Ok ==> now(j, w, j.snap(h, label).0) == (State {
            marked: now(j, w, j.snap(h, label).0).marked,
            bare: false,
            ..now(j, w, h)
        }) && (now(j, w, h).marked || label == ready() ==> now(j, w, j.snap(h, label).0).marked),
{
    broadcast use group_events;

    if !j.noop && j.snap(h, label).1 is Ok {
        let (h1, r1) = h.note(crate::host::What::Snapshotting, j.name, seq![label], j.noop);
        let (h2, r2) = h1.text(crate::host::RequestView::Now);
        let t = r2->Ok_0;
        let name = label + "_"@ + t;
        let w0 = w.after(h.events);
        assert(j.snap(h, label).0.events == h.events.push(Event::Snapshot(j.dataset, name)));
        let w1 = w0.step(Event::Snapshot(j.dataset, name));
        lemma_at_differs(j.dataset, name);
        assert(w1.snaps(j.dataset) == w0.snaps(j.dataset).push(name));
        assert(w1.snaps(j.dataset).drop_last() == w0.snaps(j.dataset));
        if label == ready() {
            assert(name == label + ("_"@ + t));
            lemma_contains_prefix(label, "_"@ + t);
        }
    }
}

/// Making a file hold a text. In a dry run nothing is changed. Nothing is
/// changed either where the file holds the text already. Else the file holds
/// the text afterwards, and the result tells whether it was there before.
pub proof fn lemma_sync_file(j: JailView, h: HostView, path: Seq<char>, text: Seq<char>, w: World)
    ensures
        keeps(w, h, j.sync_file(h, path, text).0),
        host_only(j.sync_file(h, path, text).1),
        j.noop ==> quiet(w, h, j.sync_file(h, path, text).0),
        w.faithful(j.sync_file(h, path, text).0.events) && file_at(w.after(h.events), path)
            == Some(text) ==> quiet(w, h, j.sync_file(h, path, text).0) && !(j.sync_file(
            h,
            path,
            text,
        ).1 matches Ok(Change::Modified)),
        !j.noop && w.faithful(j.sync_file(h, path, text).0.events) && j.sync_file(
            h,
            path,
            text,
        ).1 is Ok ==> {
            &&& w.after(j.sync_file(h, path, text).0.events) == (World {
                files: w.after(h.events).files.insert(path, text),
                ..w.after(h.events)
            })
            &&& (j.sync_file(h, path, text).1 matches Ok(Change::Modified)) == (file_at(
                w.after(h.events),
                path,
            ) is Some && file_at(w.after(h.events), path) != Some(text))
        },
{
    reveal(JailView::sync_file);
    broadcast use group_events;

    let w0 = w.after(h.events);
    if !j.noop && w.faithful(j.sync_file(h, path, text).0.events) && j.sync_file(
        h,
        path,
        text,
    ).1 is Ok {
        assert(w.after(j.sync_file(h, path, text).0.events).files =~= w0.files.insert(path, text));
    }
}

/// Fetching archives leaves the world as it is; in a dry run nothing is
/// fetched.
pub proof fn lemma_fetch_all(
    s: crate::source::freebsd::FreeBSD,
    j: JailView,
    h: HostView,
    n: nat,
    w: World,
)
    ensures
        inert(w, h, crate::source::freebsd::fetch_all(s, j, h, n).0),
        j.noop ==> quiet(w, h, crate::source::freebsd::fetch_all(s, j, h, n).0),
    decreases n,
{
    broadcast use group_events;

    if n > 0 {
        lemma_fetch_all(s, j, h, (n - 1) as nat, w);
    }
}

/// Creating a dataset unless it exists: on a truthful host the dataset
/// exists afterwards, and it is new and without snapshots where it was not
/// there.
pub proof fn lemma_create(h: HostView, path: Seq<char>, w: World)
    ensures
        keeps(w, h, crate::zfs::create_spec(h, path).0),
        w.faithful(crate::zfs::create_spec(h, path).0.events) && crate::zfs::create_spec(
            h,
            path,
        ).1 is Ok ==> w.after(crate::zfs::create_spec(h, path).0.events) == (if w.after(
            h.events,
        ).datasets.contains(path) {
            w.after(h.events)
        } else {
            w.after(h.events).step(Event::Created(path))
        }),
{
    broadcast use group_events;

}

/// The snapshot that marks the archives as unpacked is no mark of a
/// provisioned jail.
proof fn lemma_base_is_no_mark()
    ensures
        !crate::text::contains(crate::source::freebsd::base(), ready()),
{
    reveal_strlit("base");
    reveal_strlit("ready");
}

/// Installing a jail from a release. In a dry run nothing is changed. Else
/// the jail's dataset exists afterwards; whether the jail runs or is started
/// at boot, and its two files, are left as they were; and a jail that was
/// not there is not marked as provisioned.
pub proof fn lemma_install_freebsd(
    s: crate::source::freebsd::FreeBSD,
    j: JailView,
    h: HostView,
    w: World,
)
    ensures
        keeps(w, h, crate::source::freebsd::install_spec(s, j, h).0),
        j.noop ==> quiet(w, h, crate::source::freebsd::install_spec(s, j, h).0),
        !j.noop && w.faithful(crate::source::freebsd::install_spec(s, j, h).0.events)
            && crate::source::freebsd::install_spec(s, j, h).1 is Ok ==> now(
            j,
            w,
            crate::source::freebsd::install_spec(s, j, h).0,
        ) == (State {
            present: true,
            marked: now(j, w, crate::source::freebsd::install_spec(s, j, h).0).marked,
            bare: now(j, w, crate::source::freebsd::install_spec(s, j, h).0).bare,
            ..now(j, w, h)
        }) && (!now(j, w, h).present ==> !now(
            j,
            w,
            crate::source::freebsd::install_spec(s, j, h).0,
        ).marked),
{
    broadcast use group_events;

    let base = crate::source::freebsd::base();
    let (h1, r1) = h.note(crate::host::What::Installing, j.name, seq![s.name@], j.noop);
    assert(h1.events == h.events);
    if r1 is Ok {
        let (h2, r2) = if j.noop {
            (h1, Ok::<bool, FailureView>(false))
        } else {
            crate::zfs::create_spec(h1, j.dataset)
        };
        lemma_create(h1, j.dataset, w);
        if r2 is Ok {
            let (h3, r3) = ds_exists_spec(h2, crate::zfs::at(j.dataset, base));
            lemma_ds_exists(h2, crate::zfs::at(j.dataset, base), w);
            let (h4, r4) = crate::source::freebsd::fetch_all(s, j, h3, s.dists@.len());
            lemma_fetch_all(s, j, h3, s.dists@.len(), w);
            lemma_at_differs(j.dataset, base);
            lemma_base_is_no_mark();
            let w0 = w.after(h.events);
            let w2 = w.after(h2.events);
            let w4 = w.after(h4.events);
            let w5 = w4.step(Event::Snapshot(j.dataset, base));
            assert(w5.snaps(j.dataset) == w4.snaps(j.dataset).push(base));
            assert(w5.snaps(j.dataset).drop_last() == w4.snaps(j.dataset));
            let end = crate::source::freebsd::install_spec(s, j, h);
            if !j.noop && w.faithful(end.0.events) && end.1 is Ok {
                match r3 {
                    Ok(true) => {
                        assert(end.0 == h3);
                    },
                    Ok(false) => {
                        assert(r4 is Ok);
                        assert(end.0.events == h4.events.push(Event::Snapshot(j.dataset, base)));
                        assert(w.faithful(h4.events));
                        assert(w4 == w2);
                    },
                    Err(_) => {},
                }
                assert(w.faithful(h2.events));
                assert(w2 == if w0.datasets.contains(j.dataset) {
                    w0
                } else {
                    w0.step(Event::Created(j.dataset))
                });
                assert(!w0.datasets.contains(j.dataset) ==> w2.snaps(j.dataset)
                    == Seq::<Seq<char>>::empty());
                if !w0.datasets.contains(j.dataset) {
                    assert(last_with(w2.snaps(j.dataset), ready()) is None);
                    assert(last_with(w5.snaps(j.dataset).drop_last(), ready()) is None);
                    assert(last_with(w5.snaps(j.dataset), ready()) is None);
                }
            }
        }
    }
}

/// Installing a jail as a clone. In a dry run nothing is changed. Else the
/// jail's dataset exists afterwards, without a snapshot; whether the jail
/// runs or is started at boot, and its two files, are left as they were.
pub proof fn lemma_install_clone(
    s: crate::source::zfs_clone::ZfsClone,
    j: JailView,
    h: HostView,
    w: World,
)
    ensures
        keeps(w, h, crate::source::zfs_clone::install_spec(s, j, h).0),
        j.noop ==> quiet(w, h, crate::source::zfs_clone::install_spec(s, j, h).0),
        !j.noop && w.faithful(crate::source::zfs_clone::install_spec(s, j, h).0.events)
            && crate::source::zfs_clone::install_spec(s, j, h).1 is Ok ==> now(
            j,
            w,
            crate::source::zfs_clone::install_spec(s, j, h).0,
        ) == (State { present: true, marked: false, bare: true, ..now(j, w, h) }),
{
    broadcast use group_events;

    let (h1, r1) = ds_exists_spec(h, s.path@);
    lemma_ds_exists(h, s.path@, w);
    if r1 is Ok {
        let (h2, r2) = last_snap_spec(h1, s.path@, ready());
        lemma_last_snap(h1, s.path@, ready(), w);
    }
}

/// Installing a jail. In a dry run nothing is changed. Else the jail's
/// dataset exists afterwards; whether the jail runs or is started at boot,
/// and its two files, are left as they were; and a jail that was not there
/// is not marked as provisioned.
pub proof fn lemma_install(j: JailView, h: HostView, w: World)
    ensures
        keeps(w, h, j.install(h).0),
        j.noop ==> quiet(w, h, j.install(h).0),
        !j.noop && w.faithful(j.install(h).0.events) && j.install(h).1 is Ok ==> now(
            j,
            w,
            j.install(h).0,
        ) == (State {
            present: true,
            marked: now(j, w, j.install(h).0).marked,
            bare: now(j, w, j.install(h).0).bare,
            ..now(j, w, h)
        }) && (!now(j, w, h).present ==> !now(j, w, j.install(h).0).marked),
{
    match j.source {
        Source::FreeBSD(s) => {
            lemma_install_freebsd(s, j, h, w);
        },
        Source::ZfsClone(s) => {
            lemma_install_clone(s, j, h, w);
        },
    }
}

/// A provisioner that runs a command leaves the world as it is; in a dry run
/// it changes nothing in the jail either.
pub proof fn lemma_exec(p: crate::provisioner::exec::Exec, j: JailView, h: HostView, w: World)
    ensures
        inert(w, h, crate::provisioner::exec::provision_spec(p, j, h).0),
        j.noop ==> quiet(w, h, crate::provisioner::exec::provision_spec(p, j, h).0),
{
    broadcast use group_events;

}

/// A provisioner that copies a file leaves the world as it is; in a dry run
/// it changes nothing in the jail either.
pub proof fn lemma_file(p: crate::provisioner::file::ProvFile, j: JailView, h: HostView, w: World)
    ensures
        inert(w, h, crate::provisioner::file::provision_spec(p, j, h).0),
        j.noop ==> quiet(w, h, crate::provisioner::file::provision_spec(p, j, h).0),
{
    broadcast use group_events;

}

/// Making sure of a package leaves the world as it is.
pub proof fn lemma_ensure_pkg(j: JailView, h: HostView, name: Seq<char>, w: World)
    ensures
        inert(w, h, crate::provisioner::puppet::ensure_pkg_spec(j, h, name).0),
{
    broadcast use group_events;

}

/// Copying a manifest leaves the world as it is.
pub proof fn lemma_copy_manifest(
    p: crate::provisioner::puppet::Puppet,
    j: JailView,
    h: HostView,
    w: World,
)
    ensures
        inert(w, h, crate::provisioner::puppet::copy_manifest_spec(p, j, h).0),
{
    broadcast use group_events;

}

/// Applying a manifest that is in the jail leaves the world as it is.
pub proof fn lemma_run_manifest(
    p: crate::provisioner::puppet::Puppet,
    j: JailView,
    h: HostView,
    w: World,
)
    ensures
        inert(w, h, crate::provisioner::puppet::run_spec(p, j, h).0),
{
    broadcast use group_events;

    let (h1, r1) = crate::provisioner::puppet::make_wrapper_spec(p, j, h);
    if r1 is Ok {
        let (h2, r2) = h1.is_file(
            crate::provisioner::puppet::below(
                crate::provisioner::puppet::outside(p, j),
                "Puppetfile"@,
            ),
        );
        if r2 is Ok && r2->Ok_0 {
            lemma_ensure_pkg(j, h2, "rubygem-r10k"@, w);
        }
    }
}

/// A provisioner that applies a manifest leaves the world as it is; in a
/// dry run it changes nothing in the jail either.
pub proof fn lemma_puppet(p: crate::provisioner::puppet::Puppet, j: JailView, h: HostView, w: World)
    ensures
        inert(w, h, crate::provisioner::puppet::provision_spec(p, j, h).0),
        j.noop ==> quiet(w, h, crate::provisioner::puppet::provision_spec(p, j, h).0),
{
    let (h1, r1) = h.note(crate::host::What::RunningPuppet, j.name, seq![p.name@], j.noop);
    assert(h1.events == h.events);
    if r1 is Ok && !j.noop && crate::provisioner::file::is_absolute(p.tmp_dir@) {
        let (h2, r2) = crate::provisioner::puppet::ensure_pkg_spec(
            j,
            h1,
            "puppet"@ + p.puppet_version@,
        );
        lemma_ensure_pkg(j, h1, "puppet"@ + p.puppet_version@, w);
        if r2 is Ok {
            let (h3, r3) = crate::provisioner::puppet::copy_manifest_spec(p, j, h2);
            lemma_copy_manifest(p, j, h2, w);
            if r3 is Ok {
                lemma_run_manifest(p, j, h3, w);
            }
        }
    }
}

/// A provisioner leaves the world as it is; in a dry run it changes nothing
/// in the jail either.
pub proof fn lemma_provisioner(p: Provisioner, j: JailView, h: HostView, w: World)
    ensures
        inert(w, h, provision_spec(p, j, h).0),
        j.noop ==> quiet(w, h, provision_spec(p, j, h).0),
{
    match p {
        Provisioner::File(p) => {
            lemma_file(p, j, h, w);
        },
        Provisioner::Exec(p) => {
            lemma_exec(p, j, h, w);
        },
        Provisioner::Test(p) => {
            assert(crate::provisioner::test::provision_spec(p, j, h).0.events == h.events);
        },
        Provisioner::Puppet(p) => {
            lemma_puppet(p, j, h, w);
        },
    }
}

/// The provisioners leave the world as it is; in a dry run they change
/// nothing in the jail either.
pub proof fn lemma_provision_all(j: JailView, h: HostView, n: nat, w: World)
    ensures
        inert(w, h, j.provision_all(h, n).0),
        j.noop ==> quiet(w, h, j.provision_all(h, n).0),
    decreases n,
{
    if n > 0 {
        lemma_provision_all(j, h, (n - 1) as nat, w);
        lemma_provisioner(j.provisioners[n - 1], j, j.provision_all(h, (n - 1) as nat).0, w);
    }
}

/// What comes before the provisioners. In a dry run nothing is changed.
/// Without provisioners nothing is done at all. Else a snapshot is taken and
/// the jail runs afterwards.
pub proof fn lemma_prepare(j: JailView, h: HostView, w: World)
    ensures
        keeps(w, h, j.prepare(h).0),
        j.noop ==> quiet(w, h, j.prepare(h).0),
        j.provisioners.len() == 0 ==> j.prepare(h).0 == h,
        !j.noop && w.faithful(j.prepare(h).0.events) && j.prepare(h).1 is Ok
            && j.provisioners.len() > 0 ==> now(j, w, j.prepare(h).0) == (State {
            running: true,
            marked: now(j, w, j.prepare(h).0).marked,
            bare: false,
            ..now(j, w, h)
        }),
{
    reveal(JailView::prepare);
    if j.provisioners.len() > 0 {
        let (h1, r1) = j.snap(h, pre_provision());
        lemma_snap(j, h, pre_provision(), w);
        if r1 is Ok {
            let (h2, r2) = j.is_running(h1);
            lemma_is_running(j, h1, w);
            lemma_start_stop(j, h2, w);
        }
    }
}

/// Running the provisioners where the jail exists leaves the world as it
/// is; in a dry run nothing is changed in the jail either.
pub proof fn lemma_run_provisioners(j: JailView, h: HostView, w: World)
    ensures
        inert(w, h, j.run_provisioners(h).0),
        j.noop || j.provisioners.len() == 0 ==> quiet(w, h, j.run_provisioners(h).0),
{
    reveal(JailView::run_provisioners);
    lemma_ds_exists(h, j.dataset, w);
    lemma_provision_all(j, j.present(h).0, j.provisioners.len(), w);
}

/// Marking the jail as provisioned. In a dry run nothing is changed. A jail
/// without provisioners that is marked is left alone. Else the jail is
/// marked afterwards.
pub proof fn lemma_mark_ready(j: JailView, h: HostView, w: World)
    ensures
        keeps(w, h, j.mark_ready(h).0),
        j.noop ==> quiet(w, h, j.mark_ready(h).0),
        w.faithful(j.mark_ready(h).0.events) && j.provisioners.len() == 0 && now(j, w, h).marked
            ==> quiet(w, h, j.mark_ready(h).0),
        !j.noop && w.faithful(j.mark_ready(h).0.events) && j.mark_ready(h).1 is Ok ==> now(
            j,
            w,
            j.mark_ready(h).0,
        ) == (State { marked: true, bare: now(j, w, j.mark_ready(h).0).bare, ..now(j, w, h) }),
{
    reveal(JailView::mark_ready);
    if j.provisioners.len() > 0 {
        lemma_snap(j, h, ready(), w);
    } else {
        lemma_last_snap(h, j.dataset, ready(), w);
        lemma_snap(j, last_snap_spec(h, j.dataset, ready()).0, ready(), w);
    }
}

/// Stopping a jail that is to be stopped once it is provisioned. In a dry
/// run nothing is changed. Else such a jail does not run afterwards.
pub proof fn lemma_settle(j: JailView, h: HostView, w: World)
    ensures
        keeps(w, h, j.settle(h).0),
        host_only(j.settle(h).1),
        j.noop || !j.stop_after ==> quiet(w, h, j.settle(h).0),
        !j.noop && w.faithful(j.settle(h).0.events) && j.settle(h).1 is Ok ==> now(
            j,
            w,
            j.settle(h).0,
        ) == (State { running: now(j, w, h).running && !j.stop_after, ..now(j, w, h) }),
{
    reveal(JailView::settle);
    if j.stop_after {
        lemma_is_running(j, h, w);
        lemma_start_stop(j, j.is_running(h).0, w);
    }
}

/// Whether a jail runs once it is provisioned: one that is to be stopped
/// then does not; else one with provisioners does, and one without is left
/// as it was.
pub open spec fn runs_provisioned(j: JailView, before: bool) -> bool {
    !j.stop_after && (j.provisioners.len() > 0 || before)
}

/// Provisioning. In a dry run nothing is changed. Else the jail is marked as
/// provisioned afterwards; whether it is started at boot, and its two files,
/// are left as they were.
pub proof fn lemma_provision(j: JailView, h: HostView, w: World)
    ensures
        keeps(w, h, j.provision(h).0),
        j.noop ==> quiet(w, h, j.provision(h).0),
        w.faithful(j.provision(h).0.events) && j.provisioners.len() == 0 && !j.stop_after && now(
            j,
            w,
            h,
        ).marked ==> quiet(w, h, j.provision(h).0),
        !j.noop && w.faithful(j.provision(h).0.events) && j.provision(h).1 is Ok ==> now(
            j,
            w,
            j.provision(h).0,
        ) == (State {
            marked: true,
            bare: now(j, w, j.provision(h).0).bare,
            running: runs_provisioned(j, now(j, w, h).running),
            ..now(j, w, h)
        }),
{
    reveal(JailView::provision);
    let (h1, r1) = j.prepare(h);
    lemma_prepare(j, h, w);
    if r1 is Ok {
        let (h2, r2) = h1.note(crate::host::What::Provisioning, j.name, Seq::empty(), j.noop);
        assert(h2.events == h1.events);
        if r2 is Ok {
            let (h3, r3) = j.run_provisioners(h2);
            lemma_run_provisioners(j, h2, w);
            if r3 is Ok {
                let (h4, r4) = j.mark_ready(h3);
                lemma_mark_ready(j, h3, w);
                if r4 is Ok {
                    lemma_settle(j, h4, w);
                }
            }
        }
    }
}

/// Installing a jail unless it exists. In a dry run nothing is changed. A
/// jail that exists is left alone. Else the jail exists afterwards.
pub proof fn lemma_install_if_absent(j: JailView, h: HostView, w: World)
    ensures
        keeps(w, h, j.install_if_absent(h).0),
        w.faithful(j.install_if_absent(h).0.events) && now(j, w, h).present ==> host_only(
            j.install_if_absent(h).1,
        ),
        j.noop ==> quiet(w, h, j.install_if_absent(h).0),
        w.faithful(j.install_if_absent(h).0.events) && now(j, w, h).present ==> quiet(
            w,
            h,
            j.install_if_absent(h).0,
        ),
        !j.noop && w.faithful(j.install_if_absent(h).0.events) && j.install_if_absent(h).1 is Ok
            ==> now(j, w, j.install_if_absent(h).0) == (State {
            present: true,
            marked: now(j, w, h).present && now(j, w, h).marked,
            bare: now(j, w, j.install_if_absent(h).0).bare,
            ..now(j, w, h)
        }),
{
    reveal(JailView::install_if_absent);
    lemma_ds_exists(h, j.dataset, w);
    lemma_install(j, j.present(h).0, w);
}

/// Bringing the configuration file up to date. In a dry run nothing is
/// changed. A file that holds what it is to hold is left alone. Else the
/// file holds that afterwards, and it was modified just where it was there
/// before.
pub proof fn lemma_configure(j: JailView, h: HostView, w: World)
    requires
        j.wf(),
    ensures
        keeps(w, h, j.configure(h).0),
        host_only(j.configure(h).1),
        j.noop ==> quiet(w, h, j.configure(h).0),
        w.faithful(j.configure(h).0.events) && now(j, w, h).conf == Some(j.conf_text()) ==> quiet(
            w,
            h,
            j.configure(h).0,
        ) && !(j.configure(h).1 matches Ok(Change::Modified)),
        !j.noop && w.faithful(j.configure(h).0.events) && j.configure(h).1 is Ok ==> now(
            j,
            w,
            j.configure(h).0,
        ) == (State { conf: Some(j.conf_text()), ..now(j, w, h) }) && (j.configure(
            h,
        ).1 matches Ok(Change::Modified)) == (now(j, w, h).conf is Some && now(j, w, h).conf
            != Some(j.conf_text())),
{
    lemma_sync_file(j, h, j.conf_path, j.conf_text(), w);
}

/// Bringing the mount table up to date, for a jail with volumes. In a dry
/// run nothing is changed. A table that holds what it is to hold is left
/// alone. Else the table holds that afterwards.
pub proof fn lemma_mount_table(j: JailView, h: HostView, w: World)
    requires
        j.wf(),
    ensures
        keeps(w, h, j.mount_table(h).0),
        host_only(j.mount_table(h).1),
        j.noop ==> quiet(w, h, j.mount_table(h).0),
        w.faithful(j.mount_table(h).0.events) && (j.volumes.len() > 0 ==> now(j, w, h).fstab
            == Some(j.fstab_text())) ==> quiet(w, h, j.mount_table(h).0),
        !j.noop && w.faithful(j.mount_table(h).0.events) && j.mount_table(h).1 is Ok ==> now(
            j,
            w,
            j.mount_table(h).0,
        ) == (State {
            fstab: if j.volumes.len() > 0 {
                Some(j.fstab_text())
            } else {
                now(j, w, h).fstab
            },
            ..now(j, w, h)
        }),
{
    reveal(JailView::mount_table);
    if j.volumes.len() > 0 {
        lemma_sync_file(j, h, j.fstab_path, j.fstab_text(), w);
    }
}

/// Starting the jail at boot or not, as declared. In a dry run nothing is
/// changed. Nothing is changed where it is as declared. Else it is as
/// declared afterwards.
pub proof fn lemma_enablement(j: JailView, h: HostView, w: World)
    ensures
        keeps(w, h, j.enablement(h).0),
        host_only(j.enablement(h).1),
        j.noop ==> quiet(w, h, j.enablement(h).0),
        w.faithful(j.enablement(h).0.events) && now(j, w, h).enabled == j.enable ==> quiet(
            w,
            h,
            j.enablement(h).0,
        ),
        !j.noop && w.faithful(j.enablement(h).0.events) && j.enablement(h).1 is Ok ==> now(
            j,
            w,
            j.enablement(h).0,
        ) == (State { enabled: j.enable, ..now(j, w, h) }),
{
    reveal(JailView::enablement);
    lemma_is_enabled(j, h, w);
    lemma_enable_disable(j, j.is_enabled(h).0, w);
}

/// Running the jail or not, as declared. In a dry run nothing is changed.
/// Nothing is changed where it is as declared. Else it is as declared
/// afterwards.
pub proof fn lemma_run_state(j: JailView, h: HostView, w: World)
    ensures
        keeps(w, h, j.run_state(h).0),
        host_only(j.run_state(h).1),
        j.noop ==> quiet(w, h, j.run_state(h).0),
        w.faithful(j.run_state(h).0.events) && now(j, w, h).running == j.start ==> quiet(
            w,
            h,
            j.run_state(h).0,
        ),
        !j.noop && w.faithful(j.run_state(h).0.events) && j.run_state(h).1 is Ok ==> now(
            j,
            w,
            j.run_state(h).0,
        ) == (State { running: j.start, ..now(j, w, h) }),
{
    reveal(JailView::run_state);
    lemma_is_running(j, h, w);
    lemma_start_stop(j, j.is_running(h).0, w);
}

/// Provisioning a jail unless it is marked as provisioned. In a dry run
/// nothing is changed. For a jail that is marked the one question is all
/// that is asked of the host. Else the jail is marked afterwards.
pub proof fn lemma_provision_if_due(j: JailView, h: HostView, w: World)
    ensures
        keeps(w, h, j.provision_if_due(h).0),
        w.faithful(j.provision_if_due(h).0.events) && now(j, w, h).marked ==> host_only(
            j.provision_if_due(h).1,
        ),
        j.noop ==> quiet(w, h, j.provision_if_due(h).0),
        w.faithful(j.provision_if_due(h).0.events) && now(j, w, h).marked ==> quiet(
            w,
            h,
            j.provision_if_due(h).0,
        ) && (j.provision_if_due(h).1 is Ok ==> j.provision_if_due(h).0.asked.len()
            == h.asked.len() + 1),
        !j.noop && w.faithful(j.provision_if_due(h).0.events) && j.provision_if_due(h).1 is Ok
            ==> now(j, w, j.provision_if_due(h).0) == (State {
            marked: true,
            bare: now(j, w, j.provision_if_due(h).0).bare,
            running: if now(j, w, h).marked {
                now(j, w, h).running
            } else {
                runs_provisioned(j, now(j, w, h).running)
            },
            ..now(j, w, h)
        }),
{
    reveal(JailView::provision_if_due);
    lemma_last_snap(h, j.dataset, ready(), w);
    lemma_provision(j, last_snap_spec(h, j.dataset, ready()).0, w);
}

/// Restarting a running jail whose configuration file was changed. In a dry
/// run nothing is changed. Nothing is changed where the file was not
/// changed, or the jail does not run. Else the jail is stopped and started,
/// and runs afterwards as before.
pub proof fn lemma_restart(j: JailView, h: HostView, changed: bool, w: World)
    ensures
        keeps(w, h, j.restart(h, changed).0),
        host_only(j.restart(h, changed).1),
        j.noop ==> quiet(w, h, j.restart(h, changed).0),
        w.faithful(j.restart(h, changed).0.events) && !(changed && now(j, w, h).running)
            ==> quiet(w, h, j.restart(h, changed).0),
        !j.noop && w.faithful(j.restart(h, changed).0.events) && j.restart(h, changed).1 is Ok
            ==> now(j, w, j.restart(h, changed).0) == now(j, w, h) && (changed && now(
            j,
            w,
            h,
        ).running ==> j.restart(h, changed).0.events == h.events.push(
            Event::Running(j.name, true),
        ).push(Event::Stopped(j.name)).push(Event::Started(j.name))),
{
    reveal(JailView::restart);
    broadcast use group_events;

    let (h1, r1) = j.is_running(h);
    lemma_is_running(j, h, w);
    if r1 is Ok {
        lemma_start_stop(j, h1, w);
        let (h2, r2) = j.stop(h1);
        if r2 is Ok {
            lemma_start_stop(j, h2, w);
        }
    }
}

/// What follows the configuration file. In a dry run nothing is changed.
/// Nothing is changed either for a jail that is as declared, whose file was
/// not changed. Else the mount table holds what it is to hold, the jail is
/// started at boot as declared, and it is marked as provisioned.
pub proof fn lemma_converge(j: JailView, h: HostView, changed: bool, w: World)
    requires
        j.wf(),
    ensures
        keeps(w, h, j.converge(h, changed).0),
        w.faithful(j.converge(h, changed).0.events) && now(j, w, h).marked ==> host_only(
            j.converge(h, changed).1,
        ),
        j.noop ==> quiet(w, h, j.converge(h, changed).0),
        w.faithful(j.converge(h, changed).0.events) && converged(j, now(j, w, h)) && !changed
            ==> quiet(w, h, j.converge(h, changed).0),
        !j.noop && w.faithful(j.converge(h, changed).0.events) && j.converge(h, changed).1 is Ok
            ==> now(j, w, j.converge(h, changed).0) == (State {
            fstab: if j.volumes.len() > 0 {
                Some(j.fstab_text())
            } else {
                now(j, w, h).fstab
            },
            enabled: j.enable,
            marked: true,
            bare: now(j, w, j.converge(h, changed).0).bare,
            running: if now(j, w, h).marked {
                j.start
            } else {
                runs_provisioned(j, j.start)
            },
            ..now(j, w, h)
        }) && (changed && now(j, w, h).marked && j.start ==> j.converge(h, changed).0.events.len()
            >= 2 && j.converge(h, changed).0.events.last() == Event::Started(j.name)
            && j.converge(h, changed).0.events[j.converge(h, changed).0.events.len() - 2]
            == Event::Stopped(j.name)),
{
    reveal(JailView::converge);
    let (h1, r1) = j.mount_table(h);
    lemma_mount_table(j, h, w);
    if r1 is Ok {
        let (h2, r2) = j.enablement(h1);
        lemma_enablement(j, h1, w);
        if r2 is Ok {
            let (h3, r3) = j.run_state(h2);
            lemma_run_state(j, h2, w);
            if r3 is Ok {
                let (h4, r4) = j.provision_if_due(h3);
                lemma_provision_if_due(j, h3, w);
                if r4 is Ok {
                    lemma_restart(j, h4, changed, w);
                }
            }
        }
    }
}

/// Bringing a jail to its declared state. In a dry run nothing is changed.
/// Nothing is changed either for a jail that is as declared. Else the jail
/// exists afterwards and is marked as provisioned, its two files hold what
/// they are to hold, and it is started at boot as declared.
pub proof fn lemma_apply(j: JailView, h: HostView, w: World)
    requires
        j.wf(),
    ensures
        keeps(w, h, j.apply(h).0),
        w.faithful(j.apply(h).0.events) && now(j, w, h).present && now(j, w, h).marked
            ==> host_only(j.apply(h).1),
        j.noop ==> quiet(w, h, j.apply(h).0),
        w.faithful(j.apply(h).0.events) && converged(j, now(j, w, h)) ==> quiet(
            w,
            h,
            j.apply(h).0,
        ),
        !j.noop && w.faithful(j.apply(h).0.events) && j.apply(h).1 is Ok ==> now(
            j,
            w,
            j.apply(h).0,
        ) == (State {
            present: true,
            conf: Some(j.conf_text()),
            fstab: if j.volumes.len() > 0 {
                Some(j.fstab_text())
            } else {
                now(j, w, h).fstab
            },
            enabled: j.enable,
            marked: true,
            bare: now(j, w, j.apply(h).0).bare,
            running: if now(j, w, h).present && now(j, w, h).marked {
                j.start
            } else {
                runs_provisioned(j, j.start)
            },
        }) && (now(j, w, h).present && now(j, w, h).marked && now(j, w, h).conf is Some && now(
            j,
            w,
            h,
        ).conf != Some(j.conf_text()) && j.start ==> j.apply(h).0.events.len() >= 2 && j.apply(
            h,
        ).0.events.last() == Event::Started(j.name) && j.apply(h).0.events[j.apply(
            h,
        ).0.events.len() - 2] == Event::Stopped(j.name)),
{
    let (h0, r0) = h.note(crate::host::What::Applying, j.name, Seq::empty(), j.noop);
    assert(h0.events == h.events);
    if r0 is Ok {
        let (h1, r1) = j.install_if_absent(h0);
        lemma_install_if_absent(j, h0, w);
        if r1 is Ok {
            let (h2, r2) = j.configure(h1);
            lemma_configure(j, h1, w);
            match r2 {
                Ok(change) => {
                    lemma_converge(j, h2, change == Change::Modified, w);
                },
                Err(_) => {},
            }
        }
    }
}

/// Removing a file that is there. In a dry run nothing is changed. Else the
/// file is not there afterwards, and nothing else is changed.
pub proof fn lemma_remove_if_file(
    j: JailView,
    h: HostView,
    path: Seq<char>,
    what: crate::host::What,
    w: World,
)
    ensures
        keeps(w, h, j.remove_if_file(h, path, what).0),
        host_only(j.remove_if_file(h, path, what).1),
        j.noop ==> quiet(w, h, j.remove_if_file(h, path, what).0),
        !j.noop && w.faithful(j.remove_if_file(h, path, what).0.events) && j.remove_if_file(
            h,
            path,
            what,
        ).1 is Ok ==> w.after(j.remove_if_file(h, path, what).0.events) == (World {
            files: w.after(h.events).files.remove(path),
            ..w.after(h.events)
        }),
{
    reveal(JailView::remove_if_file);
    broadcast use group_events;

    let w0 = w.after(h.events);
    if !j.noop && w.faithful(j.remove_if_file(h, path, what).0.events) && j.remove_if_file(
        h,
        path,
        what,
    ).1 is Ok {
        assert(w.after(j.remove_if_file(h, path, what).0.events).files =~= w0.files.remove(path));
    }
}

/// The names without their first, where that is the one to leave out.
proof fn lemma_without_first(names: Seq<Seq<char>>, k: int)
    requires
        0 <= k < names.len(),
    ensures
        without(names.skip(k), names[k]) == names.skip(k + 1),
{
    assert(names.skip(k).first() == names[k]);
    assert(names.skip(k).drop_first() == names.skip(k + 1));
}

/// Destroying the snapshots that a truthful listing named, one after the
/// other: once `n` are destroyed, the others are left, and nothing else is
/// changed but that the destroyed snapshots no longer exist.
pub proof fn lemma_destroy_snaps(j: JailView, h: HostView, names: Seq<Seq<char>>, n: nat, w: World)
    requires
        n <= names.len(),
        w.after(h.events).snaps(j.dataset) == names,
    ensures
        keeps(w, h, j.destroy_snaps(h, names, n).0),
        j.destroy_snaps(h, names, n).1 is Ok ==> w.after(j.destroy_snaps(h, names, n).0.events)
            == (World {
            datasets: w.after(j.destroy_snaps(h, names, n).0.events).datasets,
            snapshots: w.after(j.destroy_snaps(h, names, n).0.events).snapshots,
            ..w.after(h.events)
        }) && w.after(j.destroy_snaps(h, names, n).0.events).snaps(j.dataset) == names.skip(
            n as int,
        ) && w.after(j.destroy_snaps(h, names, n).0.events).datasets.contains(j.dataset)
            == w.after(h.events).datasets.contains(j.dataset),
    decreases n,
{
    broadcast use group_events;

    if n == 0 {
        assert(names.skip(0) == names);
    } else {
        lemma_destroy_snaps(j, h, names, (n - 1) as nat, w);
        lemma_without_first(names, n - 1);
        lemma_at_differs(j.dataset, names[n - 1]);
    }
}

/// Stopping a jail that runs. In a dry run nothing is changed. Else the jail
/// does not run afterwards.
pub proof fn lemma_halt(j: JailView, h: HostView, w: World)
    ensures
        keeps(w, h, j.halt(h).0),
        host_only(j.halt(h).1),
        j.noop ==> quiet(w, h, j.halt(h).0),
        !j.noop && w.faithful(j.halt(h).0.events) && j.halt(h).1 is Ok ==> now(j, w, j.halt(h).0)
            == (State { running: false, ..now(j, w, h) }),
{
    reveal(JailView::halt);
    lemma_is_running(j, h, w);
    lemma_start_stop(j, j.is_running(h).0, w);
}

/// Taking a jail from those started at boot. In a dry run nothing is
/// changed. Else the jail is not started at boot afterwards.
pub proof fn lemma_unlist(j: JailView, h: HostView, w: World)
    ensures
        keeps(w, h, j.unlist(h).0),
        host_only(j.unlist(h).1),
        j.noop ==> quiet(w, h, j.unlist(h).0),
        !j.noop && w.faithful(j.unlist(h).0.events) && j.unlist(h).1 is Ok ==> now(
            j,
            w,
            j.unlist(h).0,
        ) == (State { enabled: false, ..now(j, w, h) }),
{
    reveal(JailView::unlist);
    lemma_is_enabled(j, h, w);
    lemma_enable_disable(j, j.is_enabled(h).0, w);
}

/// Removing one of the jail's two files. In a dry run nothing is changed.
/// Else that file is not there afterwards, and the other is left as it was.
pub proof fn lemma_remove_files(j: JailView, h: HostView, w: World)
    requires
        j.wf(),
    ensures
        !j.noop && w.faithful(
            j.remove_if_file(h, j.conf_path, crate::host::What::RemovingConfig).0.events,
        ) && j.remove_if_file(h, j.conf_path, crate::host::What::RemovingConfig).1 is Ok ==> now(
            j,
            w,
            j.remove_if_file(h, j.conf_path, crate::host::What::RemovingConfig).0,
        ) == (State { conf: None, ..now(j, w, h) }),
        !j.noop && w.faithful(
            j.remove_if_file(h, j.fstab_path, crate::host::What::RemovingFstab).0.events,
        ) && j.remove_if_file(h, j.fstab_path, crate::host::What::RemovingFstab).1 is Ok ==> now(
            j,
            w,
            j.remove_if_file(h, j.fstab_path, crate::host::What::RemovingFstab).0,
        ) == (State { fstab: None, ..now(j, w, h) }),
{
    lemma_remove_if_file(j, h, j.conf_path, crate::host::What::RemovingConfig, w);
    lemma_remove_if_file(j, h, j.fstab_path, crate::host::What::RemovingFstab, w);
}

/// Destroying the snapshots of the jail's dataset. In a dry run nothing is
/// changed. Else the dataset has no snapshot afterwards.
pub proof fn lemma_clear_snaps(j: JailView, h: HostView, w: World)
    ensures
        keeps(w, h, j.clear_snaps(h).0),
        host_only(j.clear_snaps(h).1),
        j.noop ==> quiet(w, h, j.clear_snaps(h).0),
        !j.noop && w.faithful(j.clear_snaps(h).0.events) && j.clear_snaps(h).1 is Ok ==> now(
            j,
            w,
            j.clear_snaps(h).0,
        ) == (State { marked: false, bare: true, ..now(j, w, h) }),
{
    reveal(JailView::clear_snaps);
    broadcast use group_events;

    let (g1, q1) = list_snaps_spec(h, j.dataset);
    lemma_list_snaps(h, j.dataset, w);
    if q1 is Ok {
        let names = q1->Ok_0;
        let (g2, q2) = g1.note(
            crate::host::What::DestroyingSnapshots,
            j.name,
            Seq::empty(),
            j.noop,
        );
        assert(g2.events == g1.events);
        if names.len() > 0 && q2 is Ok && !j.noop {
            lemma_destroy_keeps(j, g2, names, names.len(), w);
            if w.faithful(j.clear_snaps(h).0.events) && j.clear_snaps(h).1 is Ok {
                lemma_destroy_snaps(j, g2, names, names.len(), w);
                assert(names.skip(names.len() as int).len() == 0);
            }
        }
    }
}

/// Destroying the jail's dataset. In a dry run nothing is changed. Else the
/// one change is that: the dataset is gone afterwards, and what else the
/// world holds of the jail is left as it was.
pub proof fn lemma_drop_dataset(j: JailView, h: HostView, w: World)
    ensures
        keeps(w, h, j.drop_dataset(h).0),
        host_only(j.drop_dataset(h).1),
        j.noop ==> quiet(w, h, j.drop_dataset(h).0),
        !j.noop && j.drop_dataset(h).1 is Ok ==> j.drop_dataset(h).0.events == h.events.push(
            Event::Destroyed(j.dataset),
        ) && now(j, w, j.drop_dataset(h).0) == (State {
            present: false,
            marked: false,
            bare: true,
            ..now(j, w, h)
        }),
{
    reveal(JailView::drop_dataset);
    broadcast use group_events;

}

/// Taking an existing jail away. In a dry run nothing is changed. Else
/// nothing of the jail is left: it does not run and is not started at boot,
/// its two files are gone, and so are its snapshots and its dataset, which
/// had no snapshot left when it was destroyed.
pub proof fn lemma_dismantle(j: JailView, h: HostView, w: World)
    requires
        j.wf(),
    ensures
        keeps(w, h, j.dismantle(h).0),
        host_only(j.dismantle(h).1),
        j.noop ==> quiet(w, h, j.dismantle(h).0),
        !j.noop && w.faithful(j.dismantle(h).0.events) && j.dismantle(h).1 is Ok ==> now(
            j,
            w,
            j.dismantle(h).0,
        ) == (State {
            present: false,
            marked: false,
            bare: true,
            running: false,
            enabled: false,
            conf: None,
            fstab: None,
        }) && j.dismantle(h).0.events.len() > 0 && j.dismantle(h).0.events.last()
            == Event::Destroyed(j.dataset) && w.after(j.dismantle(h).0.events.drop_last()).snaps(
            j.dataset,
        ).len() == 0,
{
    reveal(JailView::dismantle);
    let (h1, r1) = j.halt(h);
    lemma_halt(j, h, w);
    if r1 is Ok {
        let (h2, r2) = j.unlist(h1);
        lemma_unlist(j, h1, w);
        if r2 is Ok {
            let (h3, r3) = j.remove_if_file(h2, j.conf_path, crate::host::What::RemovingConfig);
            lemma_remove_if_file(j, h2, j.conf_path, crate::host::What::RemovingConfig, w);
            lemma_remove_files(j, h2, w);
            if r3 is Ok {
                let (h4, r4) = j.remove_if_file(h3, j.fstab_path, crate::host::What::RemovingFstab);
                lemma_remove_if_file(j, h3, j.fstab_path, crate::host::What::RemovingFstab, w);
                lemma_remove_files(j, h3, w);
                if r4 is Ok {
                    let (h5, r5) = j.clear_snaps(h4);
                    lemma_clear_snaps(j, h4, w);
                    if r5 is Ok {
                        lemma_drop_dataset(j, h5, w);
                        if !j.noop && j.dismantle(h).1 is Ok {
                            assert(j.dismantle(h).0.events.drop_last() == h5.events);
                        }
                    }
                }
            }
        }
    }
}

/// Destroying snapshots keeps a faithful record faithful up to there.
proof fn lemma_destroy_keeps(j: JailView, h: HostView, names: Seq<Seq<char>>, n: nat, w: World)
    ensures
        keeps(w, h, j.destroy_snaps(h, names, n).0),
        host_only(j.destroy_snaps(h, names, n).1),
    decreases n,
{
    broadcast use group_events;

    if n > 0 {
        lemma_destroy_keeps(j, h, names, (n - 1) as nat, w);
    }
}

/// Destroying a jail. In a dry run nothing is changed. A jail that is not
/// there is left alone. Else nothing is left of it.
pub proof fn lemma_destroy(j: JailView, h: HostView, w: World)
    requires
        j.wf(),
    ensures
        keeps(w, h, j.destroy(h).0),
        host_only(j.destroy(h).1),
        j.noop ==> quiet(w, h, j.destroy(h).0),
        w.faithful(j.destroy(h).0.events) && !now(j, w, h).present ==> quiet(
            w,
            h,
            j.destroy(h).0,
        ),
        !j.noop && w.faithful(j.destroy(h).0.events) && j.destroy(h).1 is Ok && now(
            j,
            w,
            h,
        ).present ==> now(j, w, j.destroy(h).0) == (State {
            present: false,
            marked: false,
            bare: true,
            running: false,
            enabled: false,
            conf: None,
            fstab: None,
        }) && j.destroy(h).0.events.len() > 0 && j.destroy(h).0.events.last()
            == Event::Destroyed(j.dataset) && w.after(j.destroy(h).0.events.drop_last()).snaps(
            j.dataset,
        ).len() == 0,
{
    lemma_ds_exists(h, j.dataset, w);
    let (h1, r1) = j.present(h);
    lemma_dismantle(j, h1, w);
    let (h2, r2) = h1.note(crate::host::What::Missing, j.name, Seq::empty(), j.noop);
    assert(h2.events == h1.events);
}

/// A dry run changes nothing: whatever the host answers, and whether the
/// operation comes to its end or fails, no change is made to the host and
/// none is asked for. So what is applied, provisioned or destroyed after a
/// dry run meets the host as the dry run found it.
pub proof fn dry_run_changes_nothing(j: JailView, h: HostView, w: World)
    requires
        j.noop,
        j.wf(),
    ensures
        changes(j.apply(h).0.events) == changes(h.events),
        changes(j.provision(h).0.events) == changes(h.events),
        changes(j.destroy(h).0.events) == changes(h.events),
        w.after(j.apply(h).0.events) == w.after(h.events),
        w.after(j.provision(h).0.events) == w.after(h.events),
        w.after(j.destroy(h).0.events) == w.after(h.events),
{
    lemma_apply(j, h, w);
    lemma_provision(j, h, w);
    lemma_destroy(j, h, w);
}

/// What `apply` brings about. Where it comes to its end on a host that
/// answers truthfully, and this is no dry run, the jail exists afterwards
/// and is marked as provisioned, its configuration file holds the rendered
/// configuration, its mount table holds the rendered table if it has
/// volumes, and it is started at boot just where that is declared. A jail
/// that was there and marked runs just where that is declared. A jail that
/// had to be provisioned runs as the provisioning has left it.
pub proof fn apply_brings_about(j: JailView, h: HostView, w: World)
    requires
        !j.noop,
        j.wf(),
        j.apply(h).1 is Ok,
        w.faithful(j.apply(h).0.events),
    ensures
        now(j, w, j.apply(h).0).present,
        now(j, w, j.apply(h).0).marked,
        now(j, w, j.apply(h).0).conf == Some(j.conf_text()),
        j.volumes.len() > 0 ==> now(j, w, j.apply(h).0).fstab == Some(j.fstab_text()),
        now(j, w, j.apply(h).0).enabled == j.enable,
        now(j, w, j.apply(h).0).running == (if now(j, w, h).present && now(j, w, h).marked {
            j.start
        } else {
            runs_provisioned(j, j.start)
        }),
{
    lemma_apply(j, h, w);
}

/// `apply` corrects drift. Take a jail that exists and is marked as
/// provisioned, in whatever else it differs from what is declared: stopped
/// though it is to run, running though it is not, started at boot or not
/// against the declaration, its configuration file edited by hand. One
/// `apply` that comes to its end on a host that answers truthfully leaves
/// the jail as declared. And where the configuration file held something
/// else and the jail is to run, the last two changes are the stop and the
/// start of the jail.
pub proof fn apply_corrects_drift(j: JailView, h: HostView, w: World)
    requires
        !j.noop,
        j.wf(),
        j.apply(h).1 is Ok,
        w.faithful(j.apply(h).0.events),
        now(j, w, h).present,
        now(j, w, h).marked,
    ensures
        converged(j, now(j, w, j.apply(h).0)),
        now(j, w, h).conf is Some && now(j, w, h).conf != Some(j.conf_text()) && j.start ==> {
            let events = j.apply(h).0.events;
            events.len() >= 2 && events[events.len() - 2] == Event::Stopped(j.name)
                && events.last() == Event::Started(j.name)
        },
{
    lemma_apply(j, h, w);
}

/// `apply` leaves a jail alone that is as declared: on a host that answers
/// truthfully it asks questions only, and makes no change. It fails only
/// where the host hands in a failure.
pub proof fn apply_leaves_converged_alone(j: JailView, h: HostView, w: World)
    requires
        j.wf(),
        w.faithful(j.apply(h).0.events),
        converged(j, now(j, w, h)),
    ensures
        changes(j.apply(h).0.events) == changes(h.events),
        w.after(j.apply(h).0.events) == w.after(h.events),
        host_only(j.apply(h).1),
{
    lemma_apply(j, h, w);
}

/// `apply` twice. Let a first `apply` come to its end on a truthful host,
/// and let it leave the jail running just where it is declared to run. Let a
/// second `apply` meet the host as the first has left it. Then the second
/// makes no change and asks for none: no dataset is created or destroyed, no
/// file written, no snapshot taken. And it fails only where the host hands
/// in a failure.
///
/// The first `apply` leaves the jail running where it is declared to run
/// unless it had to provision it and the provisioning left it otherwise: a
/// jail with provisioners is started for them, and a jail that is to be
/// stopped once provisioned is stopped.
pub proof fn apply_twice(j: JailView, h: HostView, w: World, g: HostView, v: World)
    requires
        !j.noop,
        j.wf(),
        j.apply(h).1 is Ok,
        w.faithful(j.apply(h).0.events),
        now(j, w, j.apply(h).0).running == j.start,
        v.after(g.events) == w.after(j.apply(h).0.events),
        v.faithful(j.apply(g).0.events),
    ensures
        changes(j.apply(g).0.events) == changes(g.events),
        v.after(j.apply(g).0.events) == v.after(g.events),
        host_only(j.apply(g).1),
{
    lemma_apply(j, h, w);
    lemma_apply(j, g, v);
}

/// A jail that is marked as provisioned is not provisioned again. Where the
/// jail has a snapshot whose name holds the mark, `apply`'s step that
/// provisions asks the host the one question for that snapshot and nothing
/// else: no provisioner is run and no snapshot taken. And once `provision`
/// has come to its end, not in a dry run, the jail is so marked.
pub proof fn marked_jail_is_not_provisioned(j: JailView, h: HostView, w: World)
    requires
        w.faithful(j.provision_if_due(h).0.events),
        j.provision_if_due(h).1 is Ok,
        now(j, w, h).marked,
    ensures
        j.provision_if_due(h).0.asked.len() == h.asked.len() + 1,
        changes(j.provision_if_due(h).0.events) == changes(h.events),
        w.after(j.provision_if_due(h).0.events) == w.after(h.events),
{
    lemma_provision_if_due(j, h, w);
}

/// Once `provision` has come to its end on a truthful host, not in a dry
/// run, the jail is marked as provisioned; and for a jail without
/// provisioners that is so marked, `provision` takes no further snapshot.
pub proof fn provision_marks(j: JailView, h: HostView, w: World)
    requires
        w.faithful(j.provision(h).0.events),
    ensures
        !j.noop && j.provision(h).1 is Ok ==> now(j, w, j.provision(h).0).marked,
        j.provisioners.len() == 0 && !j.stop_after && now(j, w, h).marked ==> changes(
            j.provision(h).0.events,
        ) == changes(h.events),
{
    lemma_provision(j, h, w);
}

/// Provisioning is done once. Let `provision` come to its end on a truthful
/// host, not in a dry run, and let `apply`'s step that provisions meet the
/// host as that has left it. Then the step asks the host the one question
/// for the marking snapshot and nothing else: no provisioner is run a second
/// time, and nothing is changed.
pub proof fn provisioned_once(j: JailView, h: HostView, w: World, g: HostView, v: World)
    requires
        !j.noop,
        j.provision(h).1 is Ok,
        w.faithful(j.provision(h).0.events),
        v.after(g.events) == w.after(j.provision(h).0.events),
        v.faithful(j.provision_if_due(g).0.events),
        j.provision_if_due(g).1 is Ok,
    ensures
        j.provision_if_due(g).0.asked.len() == g.asked.len() + 1,
        changes(j.provision_if_due(g).0.events) == changes(g.events),
        v.after(j.provision_if_due(g).0.events) == v.after(g.events),
{
    lemma_provision(j, h, w);
    lemma_provision_if_due(j, g, v);
}

/// `destroy` leaves nothing. Where it comes to its end, not in a dry run, on
/// a truthful host that has the jail's dataset, then afterwards the dataset
/// is gone with all its snapshots, the configuration file and the mount
/// table are gone, and the jail neither runs nor is started at boot. The
/// dataset is the last to go, and has no snapshot left when it does.
pub proof fn destroy_leaves_nothing(j: JailView, h: HostView, w: World)
    requires
        !j.noop,
        j.wf(),
        j.destroy(h).1 is Ok,
        w.faithful(j.destroy(h).0.events),
        now(j, w, h).present,
    ensures
        now(j, w, j.destroy(h).0) == (State {
            present: false,
            marked: false,
            bare: true,
            running: false,
            enabled: false,
            conf: None,
            fstab: None,
        }),
        j.destroy(h).0.events.len() > 0,
        j.destroy(h).0.events.last() == Event::Destroyed(j.dataset),
        w.after(j.destroy(h).0.events.drop_last()).snaps(j.dataset).len() == 0,
{
    lemma_destroy(j, h, w);
}

} // verus!
