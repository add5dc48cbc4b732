use vstd::prelude::*;
use vstd::arithmetic::power::pow;

verus! {

/// A lower-case hexadecimal digit.
pub open spec fn hex_digit(n: int) -> char {
    if n < 10 {
        (n + 48) as char
    } else {
        (n + 87) as char
    }
}

/// The `k`-th of the 32 hexadecimal digits of `v`, most significant first.
pub open spec fn uuid_nibble(v: u128, k: int) -> int {
    (v as int / pow(16, (31 - k) as nat)) % 16
}

/// How many hyphens stand before position `i` of the hyphenated form.
pub open spec fn hyphens_before(i: int) -> int {
    if i < 8 {
        0
    } else if i < 13 {
        1
    } else if i < 18 {
        2
    } else if i < 23 {
        3
    } else {
        4
    }
}

/// The hyphenated lower-case form of a UUID, `xxxxxxxx-xxxx-xxxx-xxxx-xxxxxxxxxxxx`.
pub open spec fn uuid_text(v: u128) -> Seq<char> {
    Seq::new(
        36,
        |i: int|
            if i == 8 || i == 13 || i == 18 || i == 23 {
                '-'
            } else {
                hex_digit(uuid_nibble(v, i - hyphens_before(i)))
            },
    )
}

/// What `uuid::Uuid::parse_str` reads from a text, as a 128-bit value.
pub uninterp spec fn uuid_parsed(s: Seq<char>) -> Option<u128>;

/// Relies on `uuid::Uuid::from_u128` and its `Display`, which writes the
/// hyphenated lower-case form, most significant digit first.
#[verifier::external_body]
pub(crate) fn format_uuid(v: u128) -> (r: String)
    ensures
        r@ == uuid_text(v),
{
    uuid::Uuid::from_u128(v).to_string()
}

/// Relies on `uuid::Uuid::parse_str`; `None` where it reports an error.
#[verifier::external_body]
pub(crate) fn parse_uuid(s: &str) -> (r: Option<u128>)
    ensures
        r == uuid_parsed(s@),
{
    match uuid::Uuid::parse_str(s) {
        Ok(u) => Some(u.as_u128()),
        Err(_) => None,
    }
}

/// A point in time, as nanoseconds since the Unix epoch, in UTC.
#[derive(Clone, Copy, Debug, PartialEq, Eq, Structural)]
pub struct Timestamp {
    pub unix_nanos: i128,
}

/// What the `time` crate writes for a moment in RFC 3339 form (empty where it cannot).
pub uninterp spec fn rfc3339_text(unix_nanos: i128) -> Seq<char>;

/// Relies on `time::OffsetDateTime::from_unix_timestamp_nanos` and its
/// `format(&Rfc3339)`; a moment either of them rejects gives the empty string.
#[verifier::external_body]
pub(crate) fn format_rfc3339(unix_nanos: i128) -> (r: String)
    ensures
        r@ == rfc3339_text(unix_nanos),
{
    match time::OffsetDateTime::from_unix_timestamp_nanos(unix_nanos) {
        Ok(moment) => moment.format(&time::format_description::well_known::Rfc3339).unwrap_or_default(),
        Err(_) => String::new(),
    }
}

#[derive(Clone, Copy, Debug, PartialEq, Eq, Structural)]
pub struct Etag(pub u128);

#[derive(Clone, Copy, Debug, PartialEq, Eq, Structural)]
pub struct AddressId(pub u128);

#[derive(Clone, Copy, Debug, PartialEq, Eq, Structural)]
pub struct OrganizationId(pub u128);

#[derive(Clone, Copy, Debug, PartialEq, Eq, Structural)]
pub struct AuctionId(pub u128);

#[derive(Clone, Copy, Debug, PartialEq, Eq, Structural)]
pub struct AuctionItemId(pub u128);

#[derive(Clone, Copy, Debug, PartialEq, Eq, Structural)]
pub struct AuctionItemBidId(pub u128);

impl OrganizationId {
    /// The hyphenated form, as shown to operators.
    pub fn to_text(&self) -> (r: String)
        ensures
            r@ == uuid_text(self.0),
    {
        format_uuid(self.0)
    }
}

impl AuctionId {
    /// The hyphenated form, as shown to operators.
    pub fn to_text(&self) -> (r: String)
        ensures
            r@ == uuid_text(self.0),
    {
        format_uuid(self.0)
    }
}

impl AuctionItemId {
    /// The hyphenated form, as shown to operators.
    pub fn to_text(&self) -> (r: String)
        ensures
            r@ == uuid_text(self.0),
    {
        format_uuid(self.0)
    }
}

impl AuctionItemBidId {
    /// The hyphenated form, as shown to operators.
    pub fn to_text(&self) -> (r: String)
        ensures
            r@ == uuid_text(self.0),
    {
        format_uuid(self.0)
    }
}

} // verus!
