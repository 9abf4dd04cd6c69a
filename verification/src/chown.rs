//! What `fchown` is asked for.

use vstd::prelude::*;

verus! {

/// A call of `fchown`, ready to be made: `fchown(fd, uid, gid)`.
#[derive(Clone, Copy, Debug, PartialEq, Eq, Structural)]
pub struct ChownCall {
    pub uid: u32,
    pub gid: u32,
}

/// The id that tells `chown` to leave an owner or a group as it is: -1 in
/// the unsigned type of ids.
pub const KEEP_ID: u32 = 0xffff_ffff;

pub open spec fn spec_fchown(owner: Option<u32>, group: Option<u32>) -> ChownCall {
    ChownCall {
        uid: match owner {
            Some(uid) => uid,
            None => KEEP_ID,
        },
        gid: match group {
            Some(gid) => gid,
            None => KEEP_ID,
        },
    }
}

/// Prepares the change of the owner and the group of an open file. Where
/// one of them is `None`, it is left as it is.
pub fn fchown(owner: Option<u32>, group: Option<u32>) -> (call: ChownCall)
    ensures
        call == spec_fchown(owner, group),
{
    let uid: u32 = match owner {
        Some(uid) => uid,
        None => KEEP_ID,
    };
    let gid: u32 = match group {
        Some(gid) => gid,
        None => KEEP_ID,
    };
    ChownCall { uid, gid }
}

} // verus!
