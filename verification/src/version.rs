//! Protocol versions, and which of them this implementation serves. A
//! version is written and read as `semver` writes and reads one.

use vstd::prelude::*;

verus! {

/// The word that precedes the version in what a peer announces.
pub const PROTOCOL_PREFIX: &'static str = "ABMatrix";

/// A version of the protocol: major, minor and patch number.
#[derive(Clone, Copy, Debug, PartialEq, Eq, Structural)]
pub struct ProtocolVersion {
    pub major: u64,
    pub minor: u64,
    pub patch: u64,
}

/// The lowest version that is served: 0.2.0.
pub open spec fn min_supported() -> ProtocolVersion {
    ProtocolVersion { major: 0, minor: 2, patch: 0 }
}

/// The highest version that is served: 0.2.9.
pub open spec fn max_supported() -> ProtocolVersion {
    ProtocolVersion { major: 0, minor: 2, patch: 9 }
}

impl ProtocolVersion {
    /// Whether `self` is `other` or comes before it: by the major number,
    /// then by the minor number, then by the patch number.
    pub open spec fn at_most(self, other: ProtocolVersion) -> bool {
        self.major < other.major || (self.major == other.major && (self.minor < other.minor || (
        self.minor == other.minor && self.patch <= other.patch)))
    }

    /// Whether the version lies between the lowest and the highest version
    /// that is served, both included.
    pub open spec fn supported(self) -> bool {
        min_supported().at_most(self) && self.at_most(max_supported())
    }

    /// The version of three numbers, where there are three.
    pub open spec fn from_numbers(numbers: Option<(u64, u64, u64)>) -> Option<ProtocolVersion> {
        match numbers {
            Some((major, minor, patch)) => Some(ProtocolVersion { major, minor, patch }),
            None => None,
        }
    }

    pub fn new(major: u64, minor: u64, patch: u64) -> (version: Self)
        ensures
            version == (ProtocolVersion { major, minor, patch }),
    {
        ProtocolVersion { major, minor, patch }
    }

    /// Whether `self` is `other` or comes before it.
    pub fn le(&self, other: &ProtocolVersion) -> (r: bool)
        ensures
            r == self.at_most(*other),
    {
        if self.major != other.major {
            self.major < other.major
        } else if self.minor != other.minor {
            self.minor < other.minor
        } else {
            self.patch <= other.patch
        }
    }

    /// The version that a text such as `0.2.3` gives. A pre-release or build
    /// part, as in `0.2.3-rc.1`, is read and not kept.
    pub fn parse(text: &str) -> (version: Option<ProtocolVersion>)
        ensures
            version == Self::from_numbers(semver_numbers(text@)),
    {
        match semver_parse(text) {
            Some((major, minor, patch)) => Some(ProtocolVersion { major, minor, patch }),
            None => None,
        }
    }

    /// The version as text, such as `0.2.3`.
    pub fn to_string(&self) -> (text: String)
        ensures
            text@ == version_text(self.major, self.minor, self.patch),
    {
        semver_print(self.major, self.minor, self.patch)
    }

    /// Whether a peer of this version is served.
    pub fn is_supported(&self) -> (r: bool)
        ensures
            r == self.supported(),
    {
        min_supported_protocol_version().le(self) && self.le(&max_supported_protocol_version())
    }
}

/// The lowest version that is served.
pub fn min_supported_protocol_version() -> (version: ProtocolVersion)
    ensures
        version == min_supported(),
{
    ProtocolVersion { major: 0, minor: 2, patch: 0 }
}

/// The highest version that is served.
pub fn max_supported_protocol_version() -> (version: ProtocolVersion)
    ensures
        version == max_supported(),
{
    ProtocolVersion { major: 0, minor: 2, patch: 9 }
}

/// The major, minor and patch number of the version that `semver` reads
/// from a text, or nothing where the text is no version.
pub uninterp spec fn semver_numbers(text: Seq<char>) -> Option<(u64, u64, u64)>;

/// A number in decimal digits, without leading zeros.
pub open spec fn decimal(n: nat) -> Seq<char>
    decreases n,
{
    if n < 10 {
        seq![('0' as nat + n) as char]
    } else {
        decimal(n / 10).push(('0' as nat + n % 10) as char)
    }
}

/// The text of a version: its three numbers in decimal, with a dot between.
pub open spec fn version_text(major: u64, minor: u64, patch: u64) -> Seq<char> {
    decimal(major as nat) + seq!['.'] + decimal(minor as nat) + seq!['.'] + decimal(patch as nat)
}

/// `semver::Version::parse`, and of the version that it gives the fields
/// `major`, `minor` and `patch`. The result is named, not described.
#[verifier::external_body]
fn semver_parse(text: &str) -> (numbers: Option<(u64, u64, u64)>)
    ensures
        numbers == semver_numbers(text@),
{
    semver::Version::parse(text).ok().map(|v| (v.major, v.minor, v.patch))
}

/// `semver::Version::new` and the `to_string` of the version, which has no
/// pre-release and no build part: `semver` then writes the three numbers
/// in decimal with a dot between them.
#[verifier::external_body]
fn semver_print(major: u64, minor: u64, patch: u64) -> (text: String)
    ensures
        text@ == version_text(major, minor, patch),
{
    semver::Version::new(major, minor, patch).to_string()
}

} // verus!
