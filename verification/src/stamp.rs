//! What every transaction gets anew: an identifier and the time of its start.

use vstd::prelude::*;

verus! {

/// The number of characters of a transaction identifier.
pub const TRANSACTION_ID_LEN: usize = 36;

/// Makes an identifier that no transaction had before.
///
/// Trusted. The body calls `uuid::Uuid::new_v4`, which draws 128 random bits
/// from the operating system, and writes the value out through its `Display`
/// impl. That impl gives the hyphenated form, which has 36 characters in every
/// case; nothing else is claimed of the text. The call panics where the
/// operating system hands out no random bytes.
#[verifier::external_body]
pub(crate) fn fresh_transaction_id() -> (id: String)
    ensures
        id@.len() == TRANSACTION_ID_LEN,
{
    uuid::Uuid::new_v4().to_string()
}

/// Reads the clock and writes the time out as an RFC 3339 text in UTC.
///
/// Trusted. The body calls `chrono::Utc::now` and `DateTime::to_rfc3339` on
/// what it returns. The text depends on the clock, so nothing is claimed of
/// it. The call panics where the clock stands before 1970.
#[verifier::external_body]
pub(crate) fn current_timestamp() -> (text: String) {
    chrono::Utc::now().to_rfc3339()
}

} // verus!
