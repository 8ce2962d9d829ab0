use vstd::prelude::*;

use crate::error::ApiError;
use crate::model::{APIKey, BanData};
use vstd::string::StringSliceAdditionalSpecFns;

verus! {

/// Compares two byte strings of equal length without stopping at the first
/// difference, so the time taken does not tell where they differ.
fn bytes_equal_constant_time(a: &[u8], b: &[u8]) -> (r: bool)
    requires
        a@.len() == b@.len(),
    ensures
        r == (a@ == b@),
{
    let mut acc: u8 = 0;
    let mut i: usize = 0;
    while i < a.len()
        invariant
            a@.len() == b@.len(),
            0 <= i <= a@.len(),
            (acc == 0) == (forall|j: int| 0 <= j < i ==> a@[j] == b@[j]),
        decreases a@.len() - i,
    {
        let x = a[i];
        let y = b[i];
        let d = x ^ y;
        assert((d == 0) == (x == y)) by (bit_vector)
            requires
                d == x ^ y,
        ;
        let next = acc | d;
        assert((next == 0) == (acc == 0 && d == 0)) by (bit_vector)
            requires
                next == acc | d,
        ;
        acc = next;
        i = i + 1;
    }
    proof {
        if acc == 0 {
            assert(a@ =~= b@);
        }
    }
    acc == 0
}

/// Grants the administrative key to a request whose `Authorization` header
/// equals the configured secret.
pub fn authorize_api_key(header: Option<&str>, secret: &str) -> (r: Option<APIKey>)
    ensures
        r.is_some() <==> (header.is_some() && header.unwrap().spec_bytes() == secret.spec_bytes()),
{
    match header {
        None => None,
        Some(h) => {
            let given = h.as_bytes();
            let wanted = secret.as_bytes();
            if given.len() != wanted.len() {
                return None;
            }
            if bytes_equal_constant_time(given, wanted) {
                Some(APIKey {})
            } else {
                None
            }
        },
    }
}

/// The game account to mark banned, for a request that holds the key.
pub fn minecraft_ban(api_key: Option<APIKey>, ban_data: BanData) -> (r: Result<u128, ApiError>)
    ensures
        api_key.is_some() ==> r == Ok::<u128, ApiError>(ban_data.uuid),
        api_key.is_none() ==> r == Err::<u128, ApiError>(ApiError::Unauthenticated),
{
    match api_key {
        Some(_) => Ok(ban_data.uuid),
        None => Err(ApiError::Unauthenticated),
    }
}

} // verus!
