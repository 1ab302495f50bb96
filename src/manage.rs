use vstd::prelude::*;

use crate::identity::{derive_owner_key, keys_equal, owner_key_of};
use crate::ledger::{EventView, Ledger, LedgerView, Operation};
use crate::types::Error;

verus! {

/// What a change of pickup location returns, and the ledger it leaves behind.
pub open spec fn update_step(
    s: LedgerView,
    token_id: Seq<u8>,
    new_location: Seq<char>,
    member: Seq<u8>,
) -> (Result<(), Error>, LedgerView) {
    if !s.records.contains_key(token_id) {
        (Err(Error::NotFound), s)
    } else if s.records[token_id].member != owner_key_of(member) {
        (Err(Error::Unauthorized), s)
    } else {
        (
            Ok(()),
            LedgerView {
                records: s.records.insert(token_id, s.records[token_id].with_pickup_location(new_location)),
                events: s.events.push(EventView { operation: Operation::Update, member, token_id }),
                ..s
            },
        )
    }
}

/// Sets the pickup location of the record under `token_id`, on behalf of
/// the caller whose encoded identity is `member`, who must own it; then
/// publishes an update notification.
pub fn update_pickup_location(
    env: &mut Ledger,
    token_id: [u8; 32],
    new_location: String,
    member: Vec<u8>,
) -> (r: Result<(), Error>)
    requires
        old(env).wf(),
    ensures
        final(env).wf(),
        (r, final(env)@) == update_step(old(env)@, token_id@, new_location@, member@),
{
    let mut membership = match env.read(&token_id) {
        None => {
            return Err(Error::NotFound);
        },
        Some(m) => m,
    };
    let key = derive_owner_key(&member);
    if !keys_equal(&membership.member, &key) {
        return Err(Error::Unauthorized);
    }
    membership.pickup_location = new_location;
    match env.update(&token_id, membership) {
        Err(e) => Err(e),
        Ok(()) => {
            env.publish(Operation::Update, member, token_id);
            Ok(())
        },
    }
}

} // verus!
