//! GUIDs, and the mixed-endian order in which the driver takes their bytes.
use vstd::prelude::*;

verus! {

/// A GUID, by its sixteen bytes in the order in which it is written.
#[derive(Debug, Clone, Copy)]
pub struct Guid {
    pub bytes: [u8; 16],
}

/// The bytes with the first field of four and the two fields of two reversed.
pub open spec fn mixed_endian(b: Seq<u8>) -> Seq<u8> {
    seq![
        b[3],
        b[2],
        b[1],
        b[0],
        b[5],
        b[4],
        b[7],
        b[6],
        b[8],
        b[9],
        b[10],
        b[11],
        b[12],
        b[13],
        b[14],
        b[15],
    ]
}

/// `uuid::Uuid::to_bytes_le` reverses the bytes of each of the first three fields and leaves the
/// last eight bytes.
#[verifier::external_body]
fn uuid_to_bytes_le(bytes: [u8; 16]) -> (le: [u8; 16])
    ensures
        le@ == mixed_endian(bytes@),
{
    uuid::Uuid::from_bytes(bytes).to_bytes_le()
}

impl Guid {
    /// The bytes in mixed-endian order.
    pub fn to_bytes_le(&self) -> (le: [u8; 16])
        ensures
            le@ == mixed_endian(self.bytes@),
    {
        uuid_to_bytes_le(self.bytes)
    }
}

/// Putting the bytes in mixed-endian order twice gives them back.
pub proof fn mixed_endian_involution(b: Seq<u8>)
    requires
        b.len() == 16,
    ensures
        mixed_endian(mixed_endian(b)) == b,
{
    assert(mixed_endian(mixed_endian(b)) =~= b);
}

/// The mixed-endian order turns the first four bytes around, and the two pairs behind them, and
/// leaves the last eight.
pub proof fn mixed_endian_by_index(b: Seq<u8>, i: int)
    requires
        b.len() == 16,
        0 <= i < 16,
    ensures
        mixed_endian(b).len() == 16,
        i < 4 ==> mixed_endian(b)[i] == b[3 - i],
        4 <= i < 6 ==> mixed_endian(b)[i] == b[9 - i],
        6 <= i < 8 ==> mixed_endian(b)[i] == b[13 - i],
        8 <= i ==> mixed_endian(b)[i] == b[i],
{
}

} // verus!
