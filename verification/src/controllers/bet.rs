//! Placing and listing bets: the checks made on a bet before it is stored.
use vstd::prelude::*;

verus! {

/// The number of characters of a bookmaker ID.
pub const BOOKMAKER_ID_LEN: usize = 19;

/// Checks that the bookmaker of a bet to place is given by an ID of exactly 19
/// characters; the error carries the message shown to the client.
pub fn validate_bookmaker_id(bookmaker_id: &str) -> (r: Result<(), String>)
    ensures
        r is Ok <==> bookmaker_id@.len() == BOOKMAKER_ID_LEN,
        r matches Err(message) ==> message@ == "Enter a valid bookmaker ID"@,
{
    if bookmaker_id.unicode_len() == BOOKMAKER_ID_LEN {
        Ok(())
    } else {
        Err(String::from_str("Enter a valid bookmaker ID"))
    }
}

} // verus!
