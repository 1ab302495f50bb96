use vstd::prelude::*;

use crate::ledger::{Ledger, LedgerView};
use crate::types::{CSAMembership, MembershipView};

verus! {

/// The record under `token_id`, if one is live.
pub open spec fn metadata_of(s: LedgerView, token_id: Seq<u8>) -> Option<MembershipView> {
    if s.records.contains_key(token_id) {
        Some(s.records[token_id])
    } else {
        None
    }
}

/// The record under `token_id`, or `None` where there is none. Anyone may
/// read, and reading changes nothing.
pub fn get_membership_metadata(env: &Ledger, token_id: [u8; 32]) -> (r: Option<CSAMembership>)
    requires
        env.wf(),
    ensures
        r is None <==> metadata_of(env@, token_id@) is None,
        r matches Some(m) ==> metadata_of(env@, token_id@) == Some(m@),
{
    env.read(&token_id)
}

} // verus!
