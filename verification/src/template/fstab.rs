//! The mount table of one jail.

use crate::errors::Failure;
use crate::text::{decimal, decimal_of};
use crate::volume::Volume;
use vstd::prelude::*;

verus! {

/// The line for one volume: device, where it is mounted, filesystem type,
/// options, and the dump and pass numbers, with a space between each two and
/// a line feed at the end. The mount point is given from the directory
/// `root` on.
pub open spec fn volume_line(v: Volume, root: Seq<char>) -> Seq<char> {
    v.device@ + " "@ + root + v.mountpoint@ + " "@ + v.fs_type@ + " "@ + v.options@ + " "@
        + decimal(v.dump as int) + " "@ + decimal(v.pass as int) + "\n"@
}

/// The table: the lines of the volumes in their order.
pub open spec fn table(volumes: Seq<Volume>, root: Seq<char>) -> Seq<char>
    decreases volumes.len(),
{
    if volumes.len() == 0 {
        Seq::empty()
    } else {
        table(volumes.drop_last(), root) + volume_line(volumes.last(), root)
    }
}

/// The volumes that a row of references points to.
pub open spec fn pointed(volumes: Seq<&Volume>) -> Seq<Volume> {
    Seq::new(volumes.len(), |i: int| *volumes[i])
}

/// Appends the line for one volume.
pub fn push_volume(s: &mut String, v: &Volume, root: &str)
    ensures
        final(s)@ == old(s)@ + volume_line(*v, root@),
{
    s.append(v.device.as_str());
    s.append(" ");
    s.append(root);
    s.append(v.mountpoint.as_str());
    s.append(" ");
    s.append(v.fs_type.as_str());
    s.append(" ");
    s.append(v.options.as_str());
    s.append(" ");
    s.append(decimal_of(v.dump as i64).as_str());
    s.append(" ");
    s.append(decimal_of(v.pass as i64).as_str());
    s.append("\n");
    assert(s@ == old(s)@ + volume_line(*v, root@));
}

/// The volumes of a jail, and where the jail's files are.
#[derive(Clone, Debug)]
pub struct Fstab<'a> {
    pub volumes: Vec<&'a Volume>,
    pub jail_mountpoint: String,
}

impl<'a> Fstab<'a> {
    /// The text of the mount table: one line for each volume, in their
    /// order, each mounted below the jail's directory.
    pub fn render(&self) -> (r: Result<String, Failure>)
        ensures
            r matches Ok(s) && s@ == table(pointed(self.volumes@), self.jail_mountpoint@),
    {
        let mut s = String::new();
        let mut i: usize = 0;
        assert(pointed(self.volumes@).take(0).len() == 0);
        while i < self.volumes.len()
            invariant
                i <= self.volumes.len(),
                s@ == table(pointed(self.volumes@).take(i as int), self.jail_mountpoint@),
            decreases self.volumes.len() - i,
        {
            proof {
                let now = pointed(self.volumes@).take(i + 1);
                assert(now.drop_last() == pointed(self.volumes@).take(i as int));
                assert(now.last() == *self.volumes@[i as int]);
            }
            push_volume(&mut s, self.volumes[i], self.jail_mountpoint.as_str());
            i = i + 1;
        }
        assert(pointed(self.volumes@).take(self.volumes.len() as int) == pointed(self.volumes@));
        Ok(s)
    }
}

} // verus!
