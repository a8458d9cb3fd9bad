//! Random one-time codes: authorization codes and refresh tokens.

use vstd::prelude::*;
use rand::RngCore;
use crate::text::{hex_encode, hex_lower, is_lower_hex, lemma_hex_lower};

verus! {

/// `n` bytes from `rand::rngs::OsRng.try_fill_bytes`, the operating
/// system's random source; `None` when that source reports an error. The
/// bytes are random, so only their number is claimed. Trusted.
#[verifier::external_body]
pub(crate) fn os_random_bytes(n: usize) -> (res: Option<Vec<u8>>)
    ensures
        res matches Some(bytes) ==> bytes@.len() == n,
{
    let mut buf = vec![0u8; n];
    match rand::rngs::OsRng.try_fill_bytes(&mut buf) {
        Ok(()) => Some(buf),
        Err(_) => None,
    }
}

/// A fresh code: 256 random bits as 64 lowercase hexadecimal digits; `None`
/// when the random source fails.
pub fn generate_auth_code() -> (code: Option<String>)
    ensures
        code matches Some(c) ==> {
            &&& c@.len() == 64
            &&& is_lower_hex(c@)
            &&& exists|bytes: Seq<u8>| bytes.len() == 32 && c@ == #[trigger] hex_lower(bytes)
        },
{
    let buf = match os_random_bytes(32) {
        Some(b) => b,
        None => return None,
    };
    let code = hex_encode(buf.as_slice());
    proof {
        lemma_hex_lower(buf@);
    }
    Some(code)
}

} // verus!
