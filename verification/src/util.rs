//! Fetching and unpacking archives.

use crate::errors::{outcome, Failure};
use crate::host::{Host, Request, RequestView};
use vstd::prelude::*;

verus! {

/// Whether what is at an entry's destination must be removed before the
/// entry is unpacked: where the entry is a link, hard or symbolic, and
/// something is there. An archive's link cannot be unpacked over what
/// exists.
pub open spec fn clears(is_link: bool, present: bool) -> bool {
    is_link && present
}

/// Whether what is at an entry's destination must be removed before the
/// entry is unpacked.
pub fn clears_first(is_link: bool, present: bool) -> (r: bool)
    ensures
        r == clears(is_link, present),
{
    is_link && present
}

/// Where an entry of an archive goes: its path, below the directory that the
/// archive is unpacked into.
pub fn entry_dest(dest: &str, entry_path: &str) -> (s: String)
    ensures
        s@ == dest@ + "/"@ + entry_path@,
{
    let mut s = String::from_str(dest);
    s.append("/");
    s.append(entry_path);
    s
}

/// Has the host fetch the archive at the address and unpack it into the
/// directory.
pub fn fetch_extract(url: &str, dest: &str, host: &mut Host) -> (r: Result<(), Failure>)
    ensures
        (final(host)@, outcome(r)) == old(host)@.change(RequestView::Fetch(url@, dest@)),
{
    host.change(Request::Fetch(String::from_str(url), String::from_str(dest)))
}

} // verus!
