//! Identifiers of users, sessions, passkeys and the other stored records.
use vstd::prelude::*;

verus! {

/// The number that a sequence of bytes spells, most significant byte first.
pub open spec fn big_endian(bytes: Seq<u8>) -> nat
    decreases bytes.len(),
{
    if bytes.len() == 0 {
        0
    } else {
        big_endian(bytes.drop_last()) * 256 + bytes.last() as nat
    }
}

/// A ULID: 128 bits that identify a record.
#[derive(Clone, Copy, Debug, PartialEq, Eq, Structural)]
pub struct Ulid(pub u128);

/// Calls `ulid::Ulid::to_bytes`: the sixteen bytes of the identifier, in
/// big-endian order.
#[verifier::external_body]
fn ulid_to_bytes(value: u128) -> (bytes: [u8; 16])
    ensures
        big_endian(bytes@) == value,
{
    ulid::Ulid(value).to_bytes()
}

/// Calls `ulid::Ulid::from_bytes`: the identifier that the sixteen bytes hold
/// in big-endian order.
#[verifier::external_body]
fn ulid_from_bytes(bytes: [u8; 16]) -> (value: u128)
    ensures
        value == big_endian(bytes@),
{
    ulid::Ulid::from_bytes(bytes).0
}

impl Ulid {
    /// The identifier as sixteen bytes, most significant first.
    pub fn to_bytes(&self) -> (bytes: [u8; 16])
        ensures
            big_endian(bytes@) == self.0,
    {
        ulid_to_bytes(self.0)
    }

    /// The identifier that sixteen bytes hold, most significant first.
    pub fn from_bytes(bytes: [u8; 16]) -> (id: Ulid)
        ensures
            id.0 == big_endian(bytes@),
    {
        Ulid(ulid_from_bytes(bytes))
    }
}

/// Two byte sequences of one length that spell the same number are equal: an
/// identifier has only one sixteen-byte form, so that writing it out, reading
/// it back and writing it out again changes nothing.
pub proof fn big_endian_is_injective(a: Seq<u8>, b: Seq<u8>)
    requires
        a.len() == b.len(),
        big_endian(a) == big_endian(b),
    ensures
        a == b,
    decreases a.len(),
{
    if a.len() > 0 {
        big_endian_is_injective(a.drop_last(), b.drop_last());
        assert(a =~= a.drop_last().push(a.last()));
        assert(b =~= b.drop_last().push(b.last()));
    }
}

} // verus!
