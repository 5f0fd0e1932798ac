use vstd::prelude::*;
use vstd::slice::slice_to_vec;
use anchor_lang::prelude::Pubkey;
use vstd::string::StringSliceAdditionalSpecFns;
use crate::address::Address;
use crate::error::ErrorCode;
use crate::hash::sha256;

verus! {

/// The most seeds one derivation takes, the bump seed included.
pub const MAX_SEEDS: usize = 16;

/// The most bytes one seed may have.
pub const MAX_SEED_LEN: usize = 32;

/// Whether 32 bytes encode a point of the ed25519 curve, as
/// `solana_pubkey::bytes_are_curve_point` decides it. An address that does
/// is one that a key pair could own.
pub uninterp spec fn on_curve(bytes: Seq<u8>) -> bool;

/// The seeds as byte strings.
pub open spec fn seeds_view(seeds: Seq<Vec<u8>>) -> Seq<Seq<u8>> {
    Seq::new(seeds.len(), |i: int| seeds[i]@)
}

/// Whether a seed list is one that is hashed at all: at most `MAX_SEEDS`
/// seeds of at most `MAX_SEED_LEN` bytes each.
pub open spec fn within_limits(seeds: Seq<Seq<u8>>) -> bool {
    &&& seeds.len() <= MAX_SEEDS
    &&& forall|i: int| 0 <= i < seeds.len() ==> (#[trigger] seeds[i]).len() <= MAX_SEED_LEN
}

/// The marker that ends every derivation preimage. It keeps derived
/// addresses apart from every other use of the hash.
pub open spec fn derivation_marker() -> Seq<u8> {
    "ProgramDerivedAddress".spec_bytes()
}

/// The bytes that are hashed into a derived address: the seeds one after
/// another, the program id, and the marker.
pub open spec fn derivation_preimage(seeds: Seq<Seq<u8>>, program_id: Seq<u8>) -> Seq<u8> {
    seeds.flatten() + program_id + derivation_marker()
}

/// The address that `seeds` derive for the program `program_id`: the
/// digest of their preimage, unless the seeds are over the limits or the
/// digest is a point of the curve.
pub open spec fn program_address(seeds: Seq<Seq<u8>>, program_id: Seq<u8>) -> Option<Seq<u8>> {
    let digest = sha256(derivation_preimage(seeds, program_id));
    if within_limits(seeds) && !on_curve(digest) {
        Some(digest)
    } else {
        None
    }
}

/// Calls `anchor_lang::prelude::Pubkey::create_program_address` on the
/// seeds as given, without adding a bump seed.
///
/// The contract says what the source of that function shows. It returns an
/// error for more than `MAX_SEEDS` seeds or a seed longer than
/// `MAX_SEED_LEN`. Otherwise it feeds the seeds in their order, then the
/// program id, then the marker `ProgramDerivedAddress` to one SHA-256
/// hasher, returns an error if `bytes_are_curve_point` holds of the digest,
/// and else returns the digest as the address. Here every error is `None`.
#[verifier::external_body]
fn create_program_address(seeds: &Vec<Vec<u8>>, program_id: &Address) -> (r: Option<Address>)
    ensures
        match r {
            Some(address) => {
                &&& within_limits(seeds_view(seeds@))
                &&& address@ == sha256(derivation_preimage(seeds_view(seeds@), program_id@))
                &&& !on_curve(address@)
            },
            None => {
                ||| !within_limits(seeds_view(seeds@))
                ||| on_curve(sha256(derivation_preimage(seeds_view(seeds@), program_id@)))
            },
        },
{
    let parts: Vec<&[u8]> = seeds.iter().map(|seed| seed.as_slice()).collect();
    match Pubkey::create_program_address(&parts, &Pubkey::new_from_array(program_id.bytes)) {
        Ok(key) => Some(Address { bytes: key.to_bytes() }),
        Err(_) => None,
    }
}

/// The address that `seeds` and `bump` derive in `trust_domain`, if the
/// derivation is valid. The bump is hashed as one more seed of one byte.
pub open spec fn candidate(seeds: Seq<Seq<u8>>, bump: u8, trust_domain: Address) -> Option<Seq<u8>> {
    program_address(seeds.push(seq![bump]), trust_domain@)
}

/// Whether `(address, bump)` is the canonical pair of `seeds`: the bump
/// derives the address, and no higher bump derives any.
pub open spec fn is_canonical(
    seeds: Seq<Seq<u8>>,
    trust_domain: Address,
    address: Address,
    bump: u8,
) -> bool {
    &&& candidate(seeds, bump, trust_domain) == Some(address@)
    &&& forall|b: u8| b > bump ==> (#[trigger] candidate(seeds, b, trust_domain)) is None
}

/// The bump with which `address` is the canonical address of `seeds`, if it
/// is that address.
pub open spec fn canonical_bump(seeds: Seq<Seq<u8>>, trust_domain: Address, address: Address) -> Option<
    u8,
> {
    if exists|b: u8| is_canonical(seeds, trust_domain, address, b) {
        Some(choose|b: u8| is_canonical(seeds, trust_domain, address, b))
    } else {
        None
    }
}

/// Whether any bump derives an address from `seeds`.
pub open spec fn derivable(seeds: Seq<Seq<u8>>, trust_domain: Address) -> bool {
    exists|b: u8| (#[trigger] candidate(seeds, b, trust_domain)) is Some
}

/// Whether `r` is what deriving the canonical pair of `seeds` comes to: the
/// canonical pair, or `InvalidDerivedAddress` where no bump derives an
/// address.
pub open spec fn derives(
    seeds: Seq<Seq<u8>>,
    trust_domain: Address,
    r: Result<(Address, u8), ErrorCode>,
) -> bool {
    match r {
        Ok((address, bump)) => is_canonical(seeds, trust_domain, address, bump),
        Err(e) => e == ErrorCode::InvalidDerivedAddress && !derivable(seeds, trust_domain),
    }
}

/// A copy of the seeds with `bump` added as the last seed.
fn with_bump(seeds: &Vec<Vec<u8>>, bump: u8) -> (parts: Vec<Vec<u8>>)
    ensures
        seeds_view(parts@) == seeds_view(seeds@).push(seq![bump]),
{
    let mut parts: Vec<Vec<u8>> = Vec::new();
    let mut i: usize = 0;
    while i < seeds.len()
        invariant
            i <= seeds.len(),
            parts@.len() == i,
            forall|j: int| 0 <= j < i ==> parts@[j]@ == seeds@[j]@,
        decreases seeds.len() - i,
    {
        parts.push(slice_to_vec(seeds[i].as_slice()));
        i += 1;
    }
    let mut last: Vec<u8> = Vec::new();
    last.push(bump);
    parts.push(last);
    assert(parts@[seeds@.len() as int]@ =~= seq![bump]);
    assert(seeds_view(parts@) =~= seeds_view(seeds@).push(seq![bump]));
    parts
}

/// Derives the address of `seeds` under a bump the caller chose.
///
/// Any bump with a valid derivation is accepted here, canonical or not.
pub fn derive_with_bump(seeds: &Vec<Vec<u8>>, bump: u8, trust_domain: &Address) -> (r: Result<
    Address,
    ErrorCode,
>)
    ensures
        match r {
            Ok(address) => candidate(seeds_view(seeds@), bump, *trust_domain) == Some(address@),
            Err(e) => e == ErrorCode::InvalidDerivedAddress && candidate(
                seeds_view(seeds@),
                bump,
                *trust_domain,
            ) is None,
        },
{
    let parts = with_bump(seeds, bump);
    match create_program_address(&parts, trust_domain) {
        Some(address) => Ok(address),
        None => Err(ErrorCode::InvalidDerivedAddress),
    }
}

/// Finds the canonical address of `seeds` in `trust_domain` and its bump.
///
/// Bumps are tried from 255 down to 0 and the first valid derivation wins,
/// so the bump returned is the highest valid one. Fails exactly when no bump
/// derives an address, which includes every seed list over the limits.
pub fn derive_canonical(seeds: &Vec<Vec<u8>>, trust_domain: &Address) -> (r: Result<
    (Address, u8),
    ErrorCode,
>)
    ensures
        derives(seeds_view(seeds@), *trust_domain, r),
        r is Ok ==> within_limits(seeds_view(seeds@).push(seq![0u8])),
{
    let mut bump: u8 = 255;
    loop
        invariant
            forall|b: u8|
                b > bump ==> (#[trigger] candidate(seeds_view(seeds@), b, *trust_domain)) is None,
        decreases bump,
    {
        let parts = with_bump(seeds, bump);
        match create_program_address(&parts, trust_domain) {
            Some(address) => {
                proof {
                    lemma_limits_ignore_bump(seeds_view(seeds@), bump, 0);
                }
                return Ok((address, bump));
            },
            None => {},
        }
        if bump == 0 {
            return Err(ErrorCode::InvalidDerivedAddress);
        }
        bump -= 1;
    }
}

/// Accepts a claimed derived address and bump exactly when they are the
/// canonical pair of the seeds.
///
/// The pair is derived again from the seeds and the trust domain alone. The
/// claimed bump is only compared, never used to derive.
pub fn verify_canonical(
    seeds: &Vec<Vec<u8>>,
    trust_domain: &Address,
    claimed_address: &Address,
    claimed_bump: u8,
) -> (r: Result<(), ErrorCode>)
    ensures
        r is Ok <==> is_canonical(
            seeds_view(seeds@),
            *trust_domain,
            *claimed_address,
            claimed_bump,
        ),
        r is Err ==> r == Err::<(), ErrorCode>(ErrorCode::InvalidDerivedAddress),
{
    match derive_canonical(seeds, trust_domain) {
        Ok((address, bump)) => {
            proof {
                if is_canonical(seeds_view(seeds@), *trust_domain, *claimed_address, claimed_bump) {
                    lemma_canonical_unique(
                        seeds_view(seeds@),
                        *trust_domain,
                        address,
                        bump,
                        *claimed_address,
                        claimed_bump,
                    );
                }
            }
            if address == *claimed_address && bump == claimed_bump {
                Ok(())
            } else {
                Err(ErrorCode::InvalidDerivedAddress)
            }
        },
        Err(e) => Err(e),
    }
}

/// Accepts a claimed address exactly when it is the canonical address of the
/// seeds, and returns the canonical bump.
pub fn verify_canonical_address(
    seeds: &Vec<Vec<u8>>,
    trust_domain: &Address,
    claimed_address: &Address,
) -> (r: Result<u8, ErrorCode>)
    ensures
        match canonical_bump(seeds_view(seeds@), *trust_domain, *claimed_address) {
            Some(bump) => r == Ok::<u8, ErrorCode>(bump),
            None => r == Err::<u8, ErrorCode>(ErrorCode::InvalidDerivedAddress),
        },
{
    match derive_canonical(seeds, trust_domain) {
        Ok((address, bump)) => {
            proof {
                assert forall|b: u8|
                    is_canonical(
                        seeds_view(seeds@),
                        *trust_domain,
                        *claimed_address,
                        b,
                    ) implies b == bump && address == *claimed_address by {
                    lemma_canonical_unique(
                        seeds_view(seeds@),
                        *trust_domain,
                        address,
                        bump,
                        *claimed_address,
                        b,
                    );
                }
            }
            if address == *claimed_address {
                Ok(bump)
            } else {
                Err(ErrorCode::InvalidDerivedAddress)
            }
        },
        Err(e) => Err(e),
    }
}

/// A derived address on record: the seeds and the trust domain it was
/// derived from, and the address and bump that came out.
///
/// A record that `derive` made is canonical. One put together by hand is
/// canonical exactly when `verify` accepts it.
#[derive(Clone, Debug, PartialEq, Eq)]
pub struct DerivedAddress {
    pub seeds: Vec<Vec<u8>>,
    pub trust_domain: Address,
    pub bump: u8,
    pub address: Address,
}

impl DerivedAddress {
    /// Whether the record holds the canonical pair of its seeds.
    pub open spec fn is_canonical(&self) -> bool {
        is_canonical(seeds_view(self.seeds@), self.trust_domain, self.address, self.bump)
    }

    /// Derives the canonical record of `seeds` in `trust_domain`.
    pub fn derive(seeds: Vec<Vec<u8>>, trust_domain: Address) -> (r: Result<
        DerivedAddress,
        ErrorCode,
    >)
        ensures
            match r {
                Ok(record) => {
                    &&& record.is_canonical()
                    &&& record.seeds == seeds
                    &&& record.trust_domain == trust_domain
                },
                Err(e) => e == ErrorCode::InvalidDerivedAddress && !derivable(
                    seeds_view(seeds@),
                    trust_domain,
                ),
            },
    {
        match derive_canonical(&seeds, &trust_domain) {
            Ok((address, bump)) => Ok(DerivedAddress { seeds, trust_domain, bump, address }),
            Err(e) => Err(e),
        }
    }

    /// Strict validation: accepts the record exactly when it is canonical.
    pub fn verify(&self) -> (r: Result<(), ErrorCode>)
        ensures
            r is Ok <==> self.is_canonical(),
            r is Err ==> r == Err::<(), ErrorCode>(ErrorCode::InvalidDerivedAddress),
    {
        verify_canonical(&self.seeds, &self.trust_domain, &self.address, self.bump)
    }
}

/// Whether a seed list with a bump seed is within the limits does not
/// depend on the bump.
proof fn lemma_limits_ignore_bump(seeds: Seq<Seq<u8>>, b1: u8, b2: u8)
    requires
        within_limits(seeds.push(seq![b1])),
    ensures
        within_limits(seeds.push(seq![b2])),
{
    let s1 = seeds.push(seq![b1]);
    let s2 = seeds.push(seq![b2]);
    assert forall|i: int| 0 <= i < s2.len() implies (#[trigger] s2[i]).len() <= MAX_SEED_LEN by {
        if i < seeds.len() {
            assert(s2[i] == s1[i]);
        }
    }
}

/// A seed list has at most one canonical pair: derivation is a function of
/// the seeds and the trust domain, so two answers to the same question
/// agree in address and bump.
pub proof fn lemma_canonical_unique(
    seeds: Seq<Seq<u8>>,
    trust_domain: Address,
    address1: Address,
    bump1: u8,
    address2: Address,
    bump2: u8,
)
    requires
        is_canonical(seeds, trust_domain, address1, bump1),
        is_canonical(seeds, trust_domain, address2, bump2),
    ensures
        address1 == address2,
        bump1 == bump2,
{
    if bump1 < bump2 {
        assert(candidate(seeds, bump2, trust_domain) is None);
    }
    if bump2 < bump1 {
        assert(candidate(seeds, bump1, trust_domain) is None);
    }
    Address::lemma_view_injective(address1, address2);
}

/// Deriving is deterministic: whatever two derivations of the same seeds in
/// the same trust domain come to, they come to the same.
pub proof fn lemma_derivation_deterministic(
    seeds: Seq<Seq<u8>>,
    trust_domain: Address,
    r1: Result<(Address, u8), ErrorCode>,
    r2: Result<(Address, u8), ErrorCode>,
)
    requires
        derives(seeds, trust_domain, r1),
        derives(seeds, trust_domain, r2),
    ensures
        r1 == r2,
{
    match (r1, r2) {
        (Ok((address1, bump1)), Ok((address2, bump2))) => {
            lemma_canonical_unique(seeds, trust_domain, address1, bump1, address2, bump2);
        },
        (Ok((_, bump)), Err(_)) => {
            assert(candidate(seeds, bump, trust_domain) is Some);
        },
        (Err(_), Ok((_, bump))) => {
            assert(candidate(seeds, bump, trust_domain) is Some);
        },
        (Err(_), Err(_)) => {},
    }
}

/// Strict validation accepts no bump but the canonical one: once a pair is
/// canonical, every other bump fails with any address.
pub proof fn lemma_other_bumps_rejected(
    seeds: Seq<Seq<u8>>,
    trust_domain: Address,
    address: Address,
    bump: u8,
    claimed_address: Address,
    claimed_bump: u8,
)
    requires
        is_canonical(seeds, trust_domain, address, bump),
        claimed_bump != bump,
    ensures
        !is_canonical(seeds, trust_domain, claimed_address, claimed_bump),
{
    if is_canonical(seeds, trust_domain, claimed_address, claimed_bump) {
        lemma_canonical_unique(seeds, trust_domain, address, bump, claimed_address, claimed_bump);
    }
}

} // verus!
