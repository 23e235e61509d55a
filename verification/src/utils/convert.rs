//! Hexadecimal fields by kind.

use crate::utils::hexstr::{decode_named, hex_decode, NotHex};
use vstd::prelude::*;

verus! {

/// A field given in hexadecimal, with what it stands for.
pub enum ConvertType {
    EpochChallenge(String),
    Address(String),
    ProverSolution(String),
}

impl ConvertType {
    /// The name of the kind.
    pub open spec fn spec_name(&self) -> Seq<char> {
        match self {
            ConvertType::EpochChallenge(_) => "EpochChallenge"@,
            ConvertType::Address(_) => "Address"@,
            ConvertType::ProverSolution(_) => "ProverSolution"@,
        }
    }

    /// The hexadecimal text.
    pub open spec fn spec_raw_data(&self) -> Seq<char> {
        match self {
            ConvertType::EpochChallenge(data) => data@,
            ConvertType::Address(data) => data@,
            ConvertType::ProverSolution(data) => data@,
        }
    }

    /// The name of the kind.
    pub fn name(&self) -> (name: &str)
        ensures
            name@ == self.spec_name(),
    {
        match self {
            ConvertType::EpochChallenge(_) => "EpochChallenge",
            ConvertType::Address(_) => "Address",
            ConvertType::ProverSolution(_) => "ProverSolution",
        }
    }

    /// The hexadecimal text.
    pub fn raw_data(&self) -> (data: String)
        ensures
            data@ == self.spec_raw_data(),
    {
        match self {
            ConvertType::EpochChallenge(data) => data.clone(),
            ConvertType::Address(data) => data.clone(),
            ConvertType::ProverSolution(data) => data.clone(),
        }
    }
}

/// The bytes of a field.
pub fn convert_to_u8(data: &ConvertType) -> (bytes: Result<Vec<u8>, NotHex>)
    ensures
        match bytes {
            Ok(b) => hex_decode(data.spec_raw_data()) == Some(b@),
            Err(e) => hex_decode(data.spec_raw_data()) is None && e.what@ == data.spec_name(),
        },
{
    let data_s = data.raw_data();
    decode_named(data_s.as_str(), data.name())
}

} // verus!
