//! Installing a jail from the archives of a release.

use crate::errors::{outcome, Failure, FailureView};
use crate::host::{Host, HostView, RequestView, What};
use crate::jail::{Jail, JailView};
use crate::zfs::{at, create_spec, ds_exists_spec, snap_spec};
use vstd::prelude::*;

verus! {

/// A release, the mirror that has it, and the archives to unpack.
#[derive(Clone, Debug)]
pub struct FreeBSD {
    /// The name under which the configuration declares the source.
    pub name: String,
    pub release: String,
    pub mirror: String,
    pub dists: Vec<String>,
}

/// The label of the snapshot that marks the archives as unpacked.
pub open spec fn base() -> Seq<char> {
    "base"@
}

/// Where the mirror has an archive of the release.
pub open spec fn url(s: FreeBSD, dist: Seq<char>) -> Seq<char> {
    "http://"@ + s.mirror@ + "/pub/FreeBSD/releases/amd64/amd64/"@ + s.release@ + "/"@ + dist
        + ".txz"@
}

/// Fetching one archive and unpacking it into the jail's directory; in a dry
/// run the user is told and nothing is fetched.
pub open spec fn fetch(s: FreeBSD, j: JailView, h: HostView, dist: Seq<char>) -> (
    HostView,
    Result<(), FailureView>,
) {
    let (h1, r) = h.note(What::Fetching, j.name, seq![dist, j.mountpoint], j.noop);
    match r {
        Err(e) => (h1, Err(e)),
        Ok(_) => if j.noop {
            (h1, Ok(()))
        } else {
            h1.change(RequestView::Fetch(url(s, dist), j.mountpoint))
        },
    }
}

/// Fetching the first `n` archives in their order, up to the first that
/// fails.
pub open spec fn fetch_all(s: FreeBSD, j: JailView, h: HostView, n: nat) -> (
    HostView,
    Result<(), FailureView>,
)
    decreases n,
{
    if n == 0 {
        (h, Ok(()))
    } else {
        let (h1, r) = fetch_all(s, j, h, (n - 1) as nat);
        match r {
            Err(e) => (h1, Err(e)),
            Ok(_) => fetch(s, j, h1, s.dists@[n - 1]@),
        }
    }
}

/// Once the archives are unpacked, the snapshot `base` is taken, unless this
/// is a dry run.
pub open spec fn mark(j: JailView, fetched: (HostView, Result<(), FailureView>)) -> (
    HostView,
    Result<(), FailureView>,
) {
    match fetched.1 {
        Err(e) => (fetched.0, Err(e)),
        Ok(_) => if j.noop {
            (fetched.0, Ok(()))
        } else {
            snap_spec(fetched.0, j.dataset, base())
        },
    }
}

/// Installing from a release: the dataset is created unless it is there;
/// unless it has the snapshot `base`, the archives are unpacked and that
/// snapshot is taken. In a dry run nothing is created, fetched or snapshot.
pub open spec fn install_spec(s: FreeBSD, j: JailView, h: HostView) -> (
    HostView,
    Result<(), FailureView>,
) {
    let (h1, r1) = h.note(What::Installing, j.name, seq![s.name@], j.noop);
    match r1 {
        Err(e) => (h1, Err(e)),
        Ok(_) => {
            let (h2, r2) = if j.noop {
                (h1, Ok(false))
            } else {
                create_spec(h1, j.dataset)
            };
            match r2 {
                Err(e) => (h2, Err(e)),
                Ok(_) => {
                    let (h3, r3) = ds_exists_spec(h2, at(j.dataset, base()));
                    match r3 {
                        Err(e) => (h3, Err(e)),
                        Ok(true) => (h3, Ok(())),
                        Ok(false) => mark(j, fetch_all(s, j, h3, s.dists@.len())),
                    }
                },
            }
        },
    }
}

/// Once fetching has failed, it stays failed however many archives follow.
proof fn lemma_fetch_fails(s: FreeBSD, j: JailView, h: HostView, k: nat, n: nat)
    requires
        k <= n,
        fetch_all(s, j, h, k).1 is Err,
    ensures
        fetch_all(s, j, h, n) == fetch_all(s, j, h, k),
    decreases n,
{
    if k < n {
        lemma_fetch_fails(s, j, h, k, (n - 1) as nat);
    }
}

impl FreeBSD {
    /// Where the mirror has an archive of the release.
    pub fn url(&self, dist: &str) -> (u: String)
        ensures
            u@ == url(*self, dist@),
    {
        let mut u = String::from_str("http://");
        u.append(self.mirror.as_str());
        u.append("/pub/FreeBSD/releases/amd64/amd64/");
        u.append(self.release.as_str());
        u.append("/");
        u.append(dist);
        u.append(".txz");
        u
    }

    /// Installs the jail from the release's archives.
    pub fn install(&self, jail: &Jail, host: &mut Host) -> (r: Result<(), Failure>)
        ensures
            (final(host)@, outcome(r)) == install_spec(*self, jail@, old(host)@),
    {
        let noop = *jail.noop();
        host.note1(What::Installing, jail.name().as_str(), self.name.as_str(), noop)?;
        if !noop {
            jail.zfs_ds().create(host)?;
        }
        if jail.zfs_ds().snap_exists(host, "base")? {
            return Ok(());
        }
        let ghost start = host@;
        let mut i: usize = 0;
        while i < self.dists.len()
            invariant
                i <= self.dists.len(),
                noop == jail@.noop,
                install_spec(*self, jail@, old(host)@) == mark(
                    jail@,
                    fetch_all(*self, jail@, start, self.dists@.len()),
                ),
                (host@, Ok::<(), FailureView>(())) == fetch_all(*self, jail@, start, i as nat),
            decreases self.dists.len() - i,
        {
            let dist = self.dists[i].as_str();
            match self.fetch(jail, host, dist) {
                Ok(_) => {},
                Err(e) => {
                    proof {
                        lemma_fetch_fails(
                            *self,
                            jail@,
                            start,
                            (i + 1) as nat,
                            self.dists@.len(),
                        );
                    }
                    return Err(e);
                },
            }
            i = i + 1;
        }
        if noop {
            Ok(())
        } else {
            jail.zfs_ds().snap(host, "base")
        }
    }

    /// Fetches one archive and unpacks it into the jail's directory.
    pub fn fetch(&self, jail: &Jail, host: &mut Host, dist: &str) -> (r: Result<(), Failure>)
        ensures
            (final(host)@, outcome(r)) == fetch(*self, jail@, old(host)@, dist@),
    {
        let noop = *jail.noop();
        host.note2(What::Fetching, jail.name().as_str(), dist, jail.mountpoint().as_str(), noop)?;
        if noop {
            Ok(())
        } else {
            crate::util::fetch_extract(self.url(dist).as_str(), jail.mountpoint().as_str(), host)
        }
    }

    /// Whether the source's settings can work: they always can.
    pub fn validate(&self) -> (r: Result<(), Failure>)
        ensures
            r is Ok,
    {
        Ok(())
    }
}

} // verus!
