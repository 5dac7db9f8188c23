//! Identifiers: `uuid::Uuid` values and what the library knows of them.

use vstd::prelude::*;

verus! {

/// An identifier, a `uuid::Uuid`. The verifier sees nothing inside one:
/// what it holds is known through `uuid_bytes` alone.
#[verifier::external_type_specification]
#[verifier::external_body]
pub struct ExUuid(uuid::Uuid);

/// The sixteen bytes of an identifier.
pub uninterp spec fn uuid_bytes(id: uuid::Uuid) -> Seq<u8>;

/// `uuid::Uuid::from_bytes`: the identifier that holds exactly `bytes`.
#[verifier::external_body]
pub(crate) fn uuid_from_bytes(bytes: [u8; 16]) -> (id: uuid::Uuid)
    ensures
        uuid_bytes(id) == bytes@,
{
    uuid::Uuid::from_bytes(bytes)
}

/// `uuid::Uuid::into_bytes`: the sixteen bytes that the identifier holds.
#[verifier::external_body]
pub(crate) fn uuid_into_bytes(id: uuid::Uuid) -> (bytes: [u8; 16])
    ensures
        bytes@ == uuid_bytes(id),
{
    id.into_bytes()
}

/// Whether two byte strings are equal.
pub fn bytes_equal(a: &[u8], b: &[u8]) -> (equal: bool)
    ensures
        equal == (a@ == b@),
{
    if a.len() != b.len() {
        return false;
    }
    let mut i: usize = 0;
    while i < a.len()
        invariant
            a@.len() == b@.len(),
            i <= a@.len(),
            forall|k: int| 0 <= k < i ==> a@[k] == b@[k],
        decreases a@.len() - i,
    {
        if a[i] != b[i] {
            return false;
        }
        i = i + 1;
    }
    assert(a@ =~= b@);
    true
}

/// Whether two identifiers hold the same bytes.
pub fn uuid_equal(a: uuid::Uuid, b: uuid::Uuid) -> (equal: bool)
    ensures
        equal == (uuid_bytes(a) == uuid_bytes(b)),
{
    let left = uuid_into_bytes(a);
    let right = uuid_into_bytes(b);
    bytes_equal(left.as_slice(), right.as_slice())
}

/// The number that the lower eight of sixteen bytes stand for, the most
/// significant first.
pub open spec fn lower_half(bytes: Seq<u8>) -> int {
    bytes[8] * 0x0100_0000_0000_0000 + bytes[9] * 0x0001_0000_0000_0000 + bytes[10]
        * 0x0000_0100_0000_0000 + bytes[11] * 0x0000_0001_0000_0000 + bytes[12] * 0x0100_0000
        + bytes[13] * 0x0001_0000 + bytes[14] * 0x0100 + bytes[15]
}

/// The account number that an identifier stands for: the identifier read
/// as one number, where that number fits in 64 bits, which is where its
/// upper eight bytes are zero.
pub open spec fn xuid_of(bytes: Seq<u8>) -> Option<u64> {
    if forall|i: int| 0 <= i < 8 ==> bytes[i] == 0 {
        Some(lower_half(bytes) as u64)
    } else {
        None
    }
}

/// The account number that an identifier stands for, if it stands for one.
pub fn xuid_from_uuid(id: uuid::Uuid) -> (xuid: Option<u64>)
    ensures
        xuid == xuid_of(uuid_bytes(id)),
{
    let bytes = uuid_into_bytes(id);
    let mut i: usize = 0;
    while i < 8
        invariant
            i <= 8,
            bytes@ == uuid_bytes(id),
            forall|k: int| 0 <= k < i ==> bytes@[k] == 0,
        decreases 8 - i,
    {
        if bytes[i] != 0 {
            assert(uuid_bytes(id)[i as int] != 0);
            return None;
        }
        i = i + 1;
    }
    let value: u64 = (bytes[8] as u64) * 0x0100_0000_0000_0000 + (bytes[9] as u64)
        * 0x0001_0000_0000_0000 + (bytes[10] as u64) * 0x0000_0100_0000_0000 + (bytes[11] as u64)
        * 0x0000_0001_0000_0000 + (bytes[12] as u64) * 0x0100_0000 + (bytes[13] as u64)
        * 0x0001_0000 + (bytes[14] as u64) * 0x0100 + (bytes[15] as u64);
    Some(value)
}

} // verus!
