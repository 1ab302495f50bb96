use vstd::prelude::*;
use vstd::string::StrSliceExecFns;

use crate::ledger::{Ledger, LedgerView};
use crate::types::{Error, MAX_SEASON_LEN};

verus! {

/// The verdict on an enrollment's parameters; the checks run in order and
/// the first that fails decides the error.
pub open spec fn validation_outcome(
    s: LedgerView,
    farm_id: Seq<u8>,
    season: Seq<char>,
    start_date: u64,
    end_date: u64,
) -> Result<(), Error> {
    if !s.farms.contains(farm_id) {
        Err(Error::InvalidFarm)
    } else if start_date >= end_date || start_date < s.now {
        Err(Error::InvalidDates)
    } else if season.len() == 0 || season.len() > MAX_SEASON_LEN {
        Err(Error::InvalidSeason)
    } else {
        Ok(())
    }
}

/// Checks an enrollment's parameters: the farm is registered, the season
/// starts no earlier than now and before it ends, and its label holds 1 to
/// 32 characters.
pub fn validate_season(
    env: &Ledger,
    farm_id: &[u8; 32],
    season: &String,
    start_date: u64,
    end_date: u64,
) -> (r: Result<(), Error>)
    ensures
        r == validation_outcome(env@, farm_id@, season@, start_date, end_date),
{
    if !env.is_farm_registered(farm_id) {
        return Err(Error::InvalidFarm);
    }
    if start_date >= end_date || start_date < env.timestamp() {
        return Err(Error::InvalidDates);
    }
    let n: usize = season.as_str().unicode_len();
    if n == 0 || n > MAX_SEASON_LEN {
        return Err(Error::InvalidSeason);
    }
    Ok(())
}

} // verus!
