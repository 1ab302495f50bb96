use vstd::prelude::*;

use crate::identity::{derive_owner_key, owner_key_of};
use crate::ledger::{EventView, Ledger, LedgerView, Operation};
use crate::types::{CSAMembership, Error, MembershipView, ShareSize, ShareSizeView};
use crate::validate::{validate_season, validation_outcome};

verus! {

/// What an enrollment returns, and the ledger it leaves behind.
pub open spec fn enroll_step(
    s: LedgerView,
    farm_id: Seq<u8>,
    season: Seq<char>,
    share_size: ShareSizeView,
    pickup_location: Seq<char>,
    start_date: u64,
    end_date: u64,
    member: Seq<u8>,
    token_id: Seq<u8>,
) -> (Result<(), Error>, LedgerView) {
    match validation_outcome(s, farm_id, season, start_date, end_date) {
        Err(e) => (Err(e), s),
        Ok(_) => if s.records.contains_key(token_id) {
            (Err(Error::AlreadyExists), s)
        } else {
            let record = MembershipView {
                farm_id,
                season,
                share_size,
                pickup_location,
                start_date,
                end_date,
                member: owner_key_of(member),
            };
            (
                Ok(()),
                LedgerView {
                    records: s.records.insert(token_id, record),
                    events: s.events.push(EventView { operation: Operation::Enroll, member, token_id }),
                    ..s
                },
            )
        },
    }
}

/// Enrolls the caller whose encoded identity is `member`: validates the
/// parameters, stores a new record owned by the caller's key under
/// `token_id`, and publishes an enroll notification.
pub fn enroll_membership(
    env: &mut Ledger,
    farm_id: [u8; 32],
    season: String,
    share_size: ShareSize,
    pickup_location: String,
    start_date: u64,
    end_date: u64,
    member: Vec<u8>,
    token_id: [u8; 32],
) -> (r: Result<(), Error>)
    requires
        old(env).wf(),
    ensures
        final(env).wf(),
        (r, final(env)@) == enroll_step(
            old(env)@,
            farm_id@,
            season@,
            share_size@,
            pickup_location@,
            start_date,
            end_date,
            member@,
            token_id@,
        ),
{
    match validate_season(env, &farm_id, &season, start_date, end_date) {
        Err(e) => {
            return Err(e);
        },
        Ok(()) => {},
    }
    let key = derive_owner_key(&member);
    let record = CSAMembership {
        farm_id,
        season,
        share_size,
        pickup_location,
        start_date,
        end_date,
        member: key,
    };
    match env.create(token_id, record) {
        Err(e) => Err(e),
        Ok(()) => {
            env.publish(Operation::Enroll, member, token_id);
            Ok(())
        },
    }
}

} // verus!
