use vstd::prelude::*;

use crate::identity::{derive_owner_key, keys_equal, owner_key_of};
use crate::ledger::{EventView, Ledger, LedgerView, Operation};
use crate::types::Error;

verus! {

/// What a cancellation returns, and the ledger it leaves behind.
pub open spec fn cancel_step(s: LedgerView, token_id: Seq<u8>, member: Seq<u8>) -> (
    Result<(), Error>,
    LedgerView,
) {
    if !s.records.contains_key(token_id) {
        (Err(Error::NotFound), s)
    } else if s.records[token_id].member != owner_key_of(member) {
        (Err(Error::Unauthorized), s)
    } else {
        (
            Ok(()),
            LedgerView {
                records: s.records.remove(token_id),
                events: s.events.push(EventView { operation: Operation::Cancel, member, token_id }),
                ..s
            },
        )
    }
}

/// Removes the record under `token_id`, on behalf of the caller whose
/// encoded identity is `member`, who must own it; then publishes a cancel
/// notification.
pub fn cancel_membership(env: &mut Ledger, token_id: [u8; 32], member: Vec<u8>) -> (r: Result<(), Error>)
    requires
        old(env).wf(),
    ensures
        final(env).wf(),
        (r, final(env)@) == cancel_step(old(env)@, token_id@, member@),
{
    let membership = match env.read(&token_id) {
        None => {
            return Err(Error::NotFound);
        },
        Some(m) => m,
    };
    let key = derive_owner_key(&member);
    if !keys_equal(&membership.member, &key) {
        return Err(Error::Unauthorized);
    }
    match env.delete(&token_id) {
        Err(e) => Err(e),
        Ok(()) => {
            env.publish(Operation::Cancel, member, token_id);
            Ok(())
        },
    }
}

} // verus!
