//! The cluster's clock, as its account holds it.

use vstd::prelude::*;

use crate::error::{ErrorInfo, TradingVenueError};
use crate::layout::le_value;

verus! {

/// `solana_account::Account::deserialize_data` for `solana_sysvar::clock::Clock`, of which the slot
/// is taken. A clock is five numbers of eight bytes, least significant byte first, the slot first;
/// what follows them is not looked at. It fails only where bytes are missing.
#[verifier::external_body]
fn decode_clock_slot(data: &[u8]) -> (slot: Option<u64>)
    ensures
        slot is Some <==> data@.len() >= 40,
        slot matches Some(s) ==> s == le_value(data@.take(8)),
{
    let account = solana_account::Account { data: data.to_vec(), ..Default::default() };
    account.deserialize_data::<solana_sysvar::clock::Clock>().ok().map(|clock| clock.slot)
}

/// The slot that the data of the clock account say it is.
pub open spec fn clock_slot_result(data: Seq<u8>) -> Result<u64, TradingVenueError> {
    if data.len() >= 40 {
        Ok(le_value(data.take(8)) as u64)
    } else {
        Err(TradingVenueError::DeserializationFailed(ErrorInfo::Message("clock sysvar")))
    }
}

pub fn clock_slot(data: &[u8]) -> (result: Result<u64, TradingVenueError>)
    ensures
        result == clock_slot_result(data@),
        result matches Ok(slot) ==> slot == le_value(data@.take(8)),
{
    match decode_clock_slot(data) {
        Some(slot) => Ok(slot),
        None => Err(TradingVenueError::DeserializationFailed(ErrorInfo::Message("clock sysvar"))),
    }
}

} // verus!
