use vstd::prelude::*;
use vstd::slice::slice_to_vec;
use vstd::string::StringSliceAdditionalSpecFns;
use crate::buffer::append_bytes;
use crate::hash::{sha256, sha256_digest};

verus! {

/// The bytes that are hashed for a type name: the namespace `account:`
/// followed by the name.
pub open spec fn tag_preimage(name: Seq<u8>) -> Seq<u8> {
    "account:".spec_bytes() + name
}

/// The type tag of a type name: the first eight bytes of the digest of its
/// preimage.
pub open spec fn type_tag(name: Seq<u8>) -> Seq<u8> {
    Seq::new(8, |i: int| sha256(tag_preimage(name))[i])
}

/// Computes the type tag of a logical type name.
///
/// The same name always gives the same tag, and the tag depends on nothing
/// but the name.
pub fn discriminator_of(name: &str) -> (tag: [u8; 8])
    ensures
        tag@ == type_tag(name.spec_bytes()),
{
    let mut preimage: Vec<u8> = slice_to_vec("account:".as_bytes());
    append_bytes(&mut preimage, name.as_bytes());
    let digest = sha256_digest(preimage.as_slice());
    let mut tag = [0u8; 8];
    let mut i: usize = 0;
    while i < 8
        invariant
            i <= 8,
            forall|j: int| 0 <= j < i ==> tag[j] == digest[j],
        decreases 8 - i,
    {
        tag[i] = digest[i];
        i += 1;
    }
    assert(tag@ =~= type_tag(name.spec_bytes()));
    tag
}

} // verus!
