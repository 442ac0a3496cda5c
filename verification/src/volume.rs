//! Volumes: what is mounted into a jail.

use crate::errors::Failure;
use crate::template::fstab::{push_volume, table};
use vstd::prelude::*;

verus! {

/// Something to mount: the device or directory, where to mount it, the type
/// of the filesystem, the mount options, and the dump and pass numbers.
#[derive(Clone, Debug)]
pub struct Volume {
    pub device: String,
    pub mountpoint: String,
    pub fs_type: String,
    pub options: String,
    pub dump: i8,
    pub pass: i8,
}

/// A row of volumes.
#[derive(Clone, Debug)]
pub struct Volumes {
    volumes: Vec<Volume>,
}

impl View for Volumes {
    type V = Seq<Volume>;

    closed spec fn view(&self) -> Seq<Volume> {
        self.volumes@
    }
}

impl Volumes {
    /// The volumes in the given order.
    pub fn new(volumes: Vec<Volume>) -> (r: Volumes)
        ensures
            r@ == volumes@,
    {
        Volumes { volumes }
    }

    /// The text of a mount table with one line for each volume, in their
    /// order, the mount points as they are declared.
    pub fn render(&self) -> (r: Result<String, Failure>)
        ensures
            r matches Ok(s) && s@ == table(self@, Seq::empty()),
    {
        let mut s = String::new();
        let mut i: usize = 0;
        proof {
            reveal_strlit("");
            assert(""@ == Seq::<char>::empty());
        }
        while i < self.volumes.len()
            invariant
                i <= self.volumes.len(),
                ""@ == Seq::<char>::empty(),
                s@ == table(self.volumes@.take(i as int), Seq::empty()),
            decreases self.volumes.len() - i,
        {
            proof {
                let now = self.volumes@.take(i + 1);
                assert(now.drop_last() == self.volumes@.take(i as int));
            }
            push_volume(&mut s, &self.volumes[i], "");
            i = i + 1;
        }
        assert(self.volumes@.take(self.volumes.len() as int) == self.volumes@);
        Ok(s)
    }
}

} // verus!
