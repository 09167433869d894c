//! Opaque application-generated public identifiers.

use crate::text::utf8_len;
use vstd::arithmetic::power2::pow2;
use vstd::prelude::*;

verus! {

/// The 128-bit value that `ulid::Ulid::from_string` decodes from `text`, or `None` where it
/// reports a decode error.
pub uninterp spec fn ulid_decoded(text: Seq<char>) -> Option<u128>;

/// The Crockford base-32 digit for `d` in `0..32`: the ten decimal digits, then the capital
/// letters without I, L, O and U.
pub open spec fn crockford_digit(d: int) -> char {
    if d < 10 {
        (48 + d) as char
    } else if d < 18 {
        (55 + d) as char
    } else if d < 20 {
        (56 + d) as char
    } else if d < 22 {
        (57 + d) as char
    } else if d < 27 {
        (58 + d) as char
    } else {
        (59 + d) as char
    }
}

/// The canonical 26-character Crockford base-32 text of `value`: five bits per character, the
/// most significant first, so the first character carries only the top three bits.
pub open spec fn ulid_text(value: u128) -> Seq<char> {
    Seq::new(26, |j: int| crockford_digit((value as int / pow2((5 * (25 - j)) as nat) as int) % 32))
}

/// Calls `ulid::Ulid::from_string`. Its result is named by `ulid_decoded`; the crate's decoder
/// refuses any text whose byte length is not 26.
#[verifier::external_body]
fn decode_ulid(text: &str) -> (r: Option<u128>)
    ensures
        r == ulid_decoded(text@),
        utf8_len(text@) != 26 ==> r is None,
{
    ulid::Ulid::from_string(text).ok().map(|u| u.0)
}

/// Calls `ulid::Ulid::to_string`, which writes the 128 bits as 26 Crockford base-32
/// characters, five bits each from the least significant end backwards.
#[verifier::external_body]
fn encode_ulid(value: u128) -> (r: String)
    ensures
        r@ == ulid_text(value),
        r@.len() == 26,
{
    ulid::Ulid(value).to_string()
}

/// Whether `text` is the canonical ULID spelling that round-trips through decode and encode.
pub open spec fn is_canonical_ulid(text: Seq<char>) -> bool {
    &&& ulid_decoded(text) is Some
    &&& ulid_text(ulid_decoded(text)->0) == text
}

/// A canonical, 26-character ULID used in external contracts.
#[derive(Debug, PartialEq, Eq, PartialOrd, Ord, Hash)]
pub struct PublicId(String);

impl View for PublicId {
    type V = Seq<char>;

    closed spec fn view(&self) -> Seq<char> {
        self.0@
    }
}

impl Clone for PublicId {
    fn clone(&self) -> (r: Self)
        ensures
            r == *self,
    {
        PublicId(self.0.clone())
    }
}

/// Validation failure for a public ID supplied to application code.
#[derive(Debug, Clone, Copy, PartialEq, Eq, Structural)]
pub enum PublicIdError {
    /// The value was not canonical uppercase ULID text.
    InvalidFormat,
}

impl PublicIdError {
    /// Human-readable description of the failure.
    pub fn message(&self) -> (r: &'static str)
        ensures
            r@ == "public ID must be a canonical ULID"@,
    {
        "public ID must be a canonical ULID"
    }
}

/// Failure returned while creating an application-generated public ID.
#[derive(Debug, Clone, Copy, PartialEq, Eq, Structural)]
pub enum PublicIdGenerationError {
    /// A deterministic test generator has no IDs left to return.
    Exhausted,
    /// The monotonic ULID random component cannot be incremented further.
    MonotonicOverflow,
}

impl PublicIdGenerationError {
    /// Human-readable description of the failure.
    pub fn message(&self) -> (r: &'static str)
        ensures
            r@ == match *self {
                PublicIdGenerationError::Exhausted => "public ID generator is exhausted"@,
                PublicIdGenerationError::MonotonicOverflow => "public ID generator exhausted its monotonic ULID range"@,
            },
    {
        match self {
            PublicIdGenerationError::Exhausted => "public ID generator is exhausted",
            PublicIdGenerationError::MonotonicOverflow => "public ID generator exhausted its monotonic ULID range",
        }
    }
}

impl PublicId {
    /// Parses a canonical, uppercase ULID string.
    ///
    /// Returns `PublicIdError::InvalidFormat` when `value` is not a canonical ULID.
    pub fn parse(value: &str) -> (r: Result<Self, PublicIdError>)
        ensures
            match r {
                Ok(id) => is_canonical_ulid(value@) && id@ == value@,
                Err(e) => !is_canonical_ulid(value@) && e == PublicIdError::InvalidFormat,
            },
    {
        match decode_ulid(value) {
            None => Err(PublicIdError::InvalidFormat),
            Some(parsed) => {
                let text = encode_ulid(parsed);
                if !crate::text::str_eq(text.as_str(), value) {
                    return Err(PublicIdError::InvalidFormat);
                }
                Ok(PublicId(text))
            },
        }
    }

    /// Creates a public ID from the 128-bit value of a ULID.
    pub fn from_ulid(value: u128) -> (r: Self)
        ensures
            r@ == ulid_text(value),
    {
        PublicId(encode_ulid(value))
    }

    /// Returns the canonical ULID text used in external contracts.
    pub fn as_str(&self) -> (r: &str)
        ensures
            r@ == self@,
    {
        self.0.as_str()
    }

    /// Whether both identifiers hold the same text.
    pub fn same(&self, other: &PublicId) -> (b: bool)
        ensures
            b == (self@ == other@),
    {
        self.0 == other.0
    }
}

impl std::str::FromStr for PublicId {
    type Err = PublicIdError;

    fn from_str(value: &str) -> Result<Self, Self::Err> {
        Self::parse(value)
    }
}

} // verus!
