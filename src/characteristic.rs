//! Finding the UART TX characteristic in a discovered GATT table.
use vstd::prelude::*;

use crate::error::SessionError;

verus! {

/// The UUID of the vendor's UART TX characteristic, in hyphenated form.
pub const TX_CHARACTERISTIC_UUID: &'static str = "6e400002-b5a3-f393-e0a9-e50e24dcca9e";

#[verifier::external_type_specification]
#[verifier::external_body]
pub struct ExUuidError(uuid::Error);

/// The 128-bit value that `uuid::Uuid::parse_str` reads from `s`, or `None`
/// where it refuses `s`.
pub uninterp spec fn uuid_value(s: Seq<char>) -> Option<u128>;

/// Relies on uuid::Uuid::parse_str to read a UUID in any of its text forms,
/// and on uuid::Uuid::as_u128 for its big-endian integer value.
#[verifier::external_body]
fn parse_uuid(s: &str) -> (r: Result<u128, uuid::Error>)
    ensures
        r matches Ok(v) ==> uuid_value(s@) == Some(v),
        r is Err ==> uuid_value(s@) is None,
{
    uuid::Uuid::parse_str(s).map(|u| u.as_u128())
}

/// The first index in `uuids` that holds `target`, if any.
pub open spec fn first_index_of(uuids: Seq<u128>, target: u128) -> Option<int> {
    if exists|i: int| 0 <= i < uuids.len() && #[trigger] uuids[i] == target {
        Some(
            choose|i: int|
                0 <= i < uuids.len() && uuids[i] == target && forall|j: int|
                    0 <= j < i ==> #[trigger] uuids[j] != target,
        )
    } else {
        None
    }
}

/// The outcome of a lookup of `target` in a discovered table.
pub open spec fn lookup(uuids: Seq<u128>, target: Option<u128>) -> Result<usize, SessionError> {
    match target {
        Some(t) => match first_index_of(uuids, t) {
            Some(i) => Ok(i as usize),
            None => Err(SessionError::CharacteristicNotFound),
        },
        None => Err(SessionError::CharacteristicNotFound),
    }
}

/// Looks `target` up among the discovered characteristic UUIDs and returns
/// the index of the first entry equal to it.
pub fn find_characteristic(uuids: &Vec<u128>, target: u128) -> (r: Result<usize, SessionError>)
    ensures
        r == lookup(uuids@, Some(target)),
        match r {
            Ok(i) => i < uuids@.len() && uuids@[i as int] == target && forall|j: int|
                0 <= j < i ==> #[trigger] uuids@[j] != target,
            Err(e) => e == SessionError::CharacteristicNotFound && forall|j: int|
                0 <= j < uuids@.len() ==> #[trigger] uuids@[j] != target,
        },
{
    let mut i: usize = 0;
    while i < uuids.len()
        invariant
            i <= uuids@.len(),
            forall|j: int| 0 <= j < i ==> #[trigger] uuids@[j] != target,
        decreases uuids@.len() - i,
    {
        if uuids[i] == target {
            proof {
                let k = i as int;
                let c = choose|c: int|
                    0 <= c < uuids@.len() && uuids@[c] == target && forall|j: int|
                        0 <= j < c ==> #[trigger] uuids@[j] != target;
                if c < k {
                    assert(uuids@[c] != target);
                } else if c > k {
                    assert(uuids@[k] != target);
                }
            }
            return Ok(i);
        }
        i = i + 1;
    }
    Err(SessionError::CharacteristicNotFound)
}

/// Resolves the UART TX characteristic in a discovered table: the index of
/// the first entry whose UUID is the TX characteristic UUID, or
/// `CharacteristicNotFound` when no entry is.
pub fn get_tx_characteristic(uuids: &Vec<u128>) -> (r: Result<usize, SessionError>)
    ensures
        r == lookup(uuids@, uuid_value(TX_CHARACTERISTIC_UUID@)),
{
    match parse_uuid(TX_CHARACTERISTIC_UUID) {
        Ok(target) => find_characteristic(uuids, target),
        Err(_) => Err(SessionError::CharacteristicNotFound),
    }
}

} // verus!
