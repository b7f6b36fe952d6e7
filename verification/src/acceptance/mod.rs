//! Host-side acceptance checks that run against real boards: what each check
//! sends, what it expects, and in which order.
pub mod bridge_script;
pub mod lockout;
pub mod network_server;
pub mod provisioning;

use crate::octets;
use vstd::prelude::*;

verus! {

/// Whether a byte string occurs in another.
pub open spec fn occurs(needle: Seq<u8>, bytes: Seq<u8>) -> bool {
    exists|at: int| #[trigger] octets::holds_at(bytes, needle, at)
}

/// Whether a byte string occurs in another.
pub fn contains(bytes: &[u8], needle: &[u8]) -> (r: bool)
    ensures
        r == occurs(needle@, bytes@),
{
    proof {
        octets::lemma_first_at(bytes@, needle@, 0);
    }
    match octets::find(bytes, needle, 0) {
        Some(at) => {
            assert(octets::holds_at(bytes@, needle@, at as int));
            true
        },
        None => false,
    }
}

/// What a byte string is made of occurs in it.
pub proof fn lemma_occurs(before: Seq<u8>, needle: Seq<u8>, behind: Seq<u8>)
    ensures
        occurs(needle, before + needle + behind),
{
    let all = before + needle + behind;
    let at = before.len() as int;
    assert(all.subrange(at, at + needle.len()) =~= needle);
    assert(octets::holds_at(all, needle, at));
}

} // verus!
