use vstd::prelude::*;
use vstd::bytes::{spec_u64_from_le_bytes, spec_u64_to_le_bytes, u64_from_le_bytes, u64_to_le_bytes};
use vstd::slice::slice_subrange;
use vstd::string::StringSliceAdditionalSpecFns;
use crate::address::Address;
use crate::buffer::append_bytes;

verus! {

/// A logical account type with a fixed, versionless byte layout.
///
/// The layout is given once, by `encoding`. Decoding is its inverse: it
/// succeeds on exactly the byte strings that are the encoding of a value.
pub trait AccountData: Sized {
    /// The name that is hashed into the type tag.
    spec fn spec_name() -> Seq<u8>;

    /// The number of bytes of every encoding.
    spec fn spec_size() -> nat;

    /// The bytes that stand for the value.
    spec fn encoding(&self) -> Seq<u8>;

    fn name() -> (n: &'static str)
        ensures
            n.spec_bytes() == Self::spec_name(),
    ;

    fn size() -> (n: usize)
        ensures
            n == Self::spec_size(),
    ;

    fn encode(&self) -> (bytes: Vec<u8>)
        ensures
            bytes@ == self.encoding(),
    ;

    fn decode(bytes: &[u8]) -> (r: Option<Self>)
        ensures
            r is Some <==> exists|v: Self| #[trigger] v.encoding() == bytes@,
            r matches Some(v) ==> v.encoding() == bytes@,
    ;

    /// Every encoding has the type's size.
    proof fn lemma_encoding_len(&self)
        ensures
            self.encoding().len() == Self::spec_size(),
    ;

    /// Different values have different encodings.
    proof fn lemma_encoding_injective(&self, other: &Self)
        requires
            self.encoding() == other.encoding(),
        ensures
            *self == *other,
    ;
}

/// Whether `bytes` is the encoding of some value of `T`.
pub open spec fn decodable<T: AccountData>(bytes: Seq<u8>) -> bool {
    exists|v: T| #[trigger] v.encoding() == bytes
}

/// One byte for a flag: 1 for true, 0 for false.
pub open spec fn spec_bool_to_byte(b: bool) -> u8 {
    if b {
        1
    } else {
        0
    }
}

/// Reads the 32 bytes of an address at offset `at`.
pub fn read_address(bytes: &[u8], at: usize) -> (a: Address)
    requires
        at + 32 <= bytes@.len(),
    ensures
        a@ == bytes@.subrange(at as int, at + 32),
{
    let len = bytes.len();
    let mut out = [0u8; 32];
    let mut i: usize = 0;
    while i < 32
        invariant
            i <= 32,
            at + 32 <= len == bytes@.len(),
            forall|j: int| 0 <= j < i ==> out[j] == bytes@[at + j],
        decreases 32 - i,
    {
        out[i] = bytes[at + i];
        i += 1;
    }
    assert(out@ =~= bytes@.subrange(at as int, at + 32));
    Address { bytes: out }
}

/// Reads a little-endian `u64` at offset `at`.
pub fn read_u64(bytes: &[u8], at: usize) -> (x: u64)
    requires
        at + 8 <= bytes@.len(),
    ensures
        x == spec_u64_from_le_bytes(bytes@.subrange(at as int, at + 8)),
{
    let len = bytes.len();
    assert(at + 8 <= len);
    u64_from_le_bytes(slice_subrange(bytes, at, at + 8))
}

/// Reads a flag at offset `at`: 0 is false, 1 is true, and any other byte is
/// malformed.
pub fn read_bool(bytes: &[u8], at: usize) -> (r: Option<bool>)
    requires
        at < bytes@.len(),
    ensures
        r is Some <==> bytes@[at as int] <= 1,
        r matches Some(b) ==> spec_bool_to_byte(b) == bytes@[at as int],
{
    let byte = bytes[at];
    if byte == 0 {
        Some(false)
    } else if byte == 1 {
        Some(true)
    } else {
        None
    }
}

/// Appends the bytes of an address.
pub fn write_address(out: &mut Vec<u8>, a: &Address)
    ensures
        final(out)@ == old(out)@ + a@,
{
    append_bytes(out, a.bytes.as_slice());
}

/// Appends a `u64` in little-endian order.
pub fn write_u64(out: &mut Vec<u8>, x: u64)
    ensures
        final(out)@ == old(out)@ + spec_u64_to_le_bytes(x),
{
    let bytes = u64_to_le_bytes(x);
    append_bytes(out, bytes.as_slice());
}

/// Appends a flag as one byte.
pub fn write_bool(out: &mut Vec<u8>, b: bool)
    ensures
        final(out)@ == old(out)@.push(spec_bool_to_byte(b)),
{
    if b {
        out.push(1);
    } else {
        out.push(0);
    }
}

} // verus!
