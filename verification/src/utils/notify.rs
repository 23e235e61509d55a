//! The fields of a job announcement, from hexadecimal text to bytes.

use crate::utils::hexstr::{decode_named, hex_decode, NotHex};
use vstd::prelude::*;

verus! {

/// The bytes of a proving key given in hexadecimal.
pub fn proving_key_u8(pk_hex: &str) -> (bytes: Result<Vec<u8>, NotHex>)
    ensures
        match bytes {
            Ok(b) => hex_decode(pk_hex@) == Some(b@),
            Err(e) => hex_decode(pk_hex@) is None && e.what@ == "proving_key"@,
        },
{
    decode_named(pk_hex, "proving_key")
}

/// The bytes of an epoch challenge given in hexadecimal.
pub fn epoch_challenge_u8(epoch_challenge: &str) -> (bytes: Result<Vec<u8>, NotHex>)
    ensures
        match bytes {
            Ok(b) => hex_decode(epoch_challenge@) == Some(b@),
            Err(e) => hex_decode(epoch_challenge@) is None && e.what@ == "epoch_challenge"@,
        },
{
    decode_named(epoch_challenge, "epoch_challenge")
}

/// The bytes of an address given in hexadecimal.
pub fn address_u8(address: &str) -> (bytes: Result<Vec<u8>, NotHex>)
    ensures
        match bytes {
            Ok(b) => hex_decode(address@) == Some(b@),
            Err(e) => hex_decode(address@) is None && e.what@ == "address"@,
        },
{
    decode_named(address, "address")
}

} // verus!
