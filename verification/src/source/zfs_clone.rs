//! Installing a jail as a clone of a dataset.

use crate::errors::{outcome, Failure, FailureView, SourceError};
use crate::host::{Host, HostView, What};
use crate::jail::{ready, Jail, JailView};
use crate::zfs::{clone_spec, ds_exists_spec, last_snap_spec, DataSet};
use vstd::prelude::*;

verus! {

/// The dataset to clone. It must have a snapshot marked `ready`.
#[derive(Clone, Debug)]
pub struct ZfsClone {
    pub path: String,
}

/// What is reported where the dataset to clone does not exist.
pub open spec fn no_dataset(jail: Seq<char>, path: Seq<char>) -> Seq<char> {
    jail + ": source dataset "@ + path + " doesn't exist"@
}

/// What is reported where the dataset to clone has no snapshot marked
/// `ready`.
pub open spec fn no_snapshot(jail: Seq<char>, path: Seq<char>) -> Seq<char> {
    jail + ": 'ready' snapshot not found for source dataset: "@ + path
}

/// Installing as a clone: the source dataset must exist and have a snapshot
/// whose name holds `ready`; the newest such is cloned to the jail's dataset.
/// In a dry run the user is told and nothing is cloned.
pub open spec fn install_spec(s: ZfsClone, j: JailView, h: HostView) -> (
    HostView,
    Result<(), FailureView>,
) {
    let (h1, r1) = ds_exists_spec(h, s.path@);
    match r1 {
        Err(e) => (h1, Err(e)),
        Ok(false) => (h1, Err(FailureView::Source(no_dataset(j.name, s.path@)))),
        Ok(true) => {
            let (h2, r2) = last_snap_spec(h1, s.path@, ready());
            match r2 {
                Err(e) => (h2, Err(e)),
                Ok(None) => (h2, Err(FailureView::Source(no_snapshot(j.name, s.path@)))),
                Ok(Some(snapshot)) => {
                    let (h3, r3) = h2.note(
                        What::Cloning,
                        j.name,
                        seq![s.path@, snapshot, j.dataset],
                        j.noop,
                    );
                    match r3 {
                        Err(e) => (h3, Err(e)),
                        Ok(_) => if j.noop {
                            (h3, Ok(()))
                        } else {
                            let (h4, r4) = clone_spec(h3, s.path@, snapshot, j.dataset);
                            match r4 {
                                Err(e) => (h4, Err(e)),
                                Ok(_) => (h4, Ok(())),
                            }
                        },
                    }
                },
            }
        },
    }
}

impl ZfsClone {
    /// Installs the jail as a clone of the dataset's newest `ready` snapshot.
    pub fn install(&self, jail: &Jail, host: &mut Host) -> (r: Result<(), Failure>)
        ensures
            (final(host)@, outcome(r)) == install_spec(*self, jail@, old(host)@),
    {
        let src_dataset = DataSet::new(self.path.as_str());
        if !src_dataset.present(host)? {
            let mut message = jail.name().clone();
            message.append(": source dataset ");
            message.append(self.path.as_str());
            message.append(" doesn't exist");
            return Err(Failure::Source(SourceError(message)));
        }
        match src_dataset.last_snap(host, "ready")? {
            Some(snapshot) => {
                host.note3(
                    What::Cloning,
                    jail.name().as_str(),
                    self.path.as_str(),
                    snapshot.as_str(),
                    jail.zfs_ds().path().as_str(),
                    *jail.noop(),
                )?;
                if !*jail.noop() {
                    src_dataset.clone(host, snapshot.as_str(), jail.zfs_ds().path().as_str())?;
                }
                Ok(())
            },
            None => {
                let mut message = jail.name().clone();
                message.append(": 'ready' snapshot not found for source dataset: ");
                message.append(self.path.as_str());
                Err(Failure::Source(SourceError(message)))
            },
        }
    }

    /// Whether the source's settings can work: they always can.
    pub fn validate(&self) -> (r: Result<(), Failure>)
        ensures
            r is Ok,
    {
        Ok(())
    }
}

} // verus!
