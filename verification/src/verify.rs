use vstd::prelude::*;
use crate::account::{Account, DISCRIMINATOR_LEN};
use crate::address::Address;
use crate::error::ErrorCode;

verus! {

/// Something that records whether its one-time setup has run.
pub trait InitFlag {
    /// Whether setup has run.
    spec fn is_initialized(&self) -> bool;

    /// Reads the flag.
    fn initialized(&self) -> (b: bool)
        ensures
            b == self.is_initialized(),
    ;
}

/// A raw account counts as initialized once a type tag has been written to
/// it.
impl InitFlag for Account {
    open spec fn is_initialized(&self) -> bool {
        self@.is_tagged()
    }

    fn initialized(&self) -> (b: bool) {
        let mut i: usize = 0;
        while i < DISCRIMINATOR_LEN && i < self.data.len()
            invariant
                i <= DISCRIMINATOR_LEN,
                i <= self.data.len(),
                forall|j: int| 0 <= j < i ==> self.data[j] == 0,
            decreases DISCRIMINATOR_LEN - i,
        {
            if self.data[i] != 0 {
                assert(self@.data[i as int] != 0);
                return true;
            }
            i += 1;
        }
        false
    }
}

/// Succeeds exactly when the runtime saw a signature of the account's key.
///
/// Neither the address nor the data is looked at: that an address equals a
/// stored authority shows who is named, not that they consented.
pub fn verify_signer(account: &Account) -> (r: Result<(), ErrorCode>)
    ensures
        r is Ok <==> account.is_signer,
        r is Err ==> r == Err::<(), ErrorCode>(ErrorCode::Unauthorized),
{
    if account.is_signer {
        Ok(())
    } else {
        Err(ErrorCode::Unauthorized)
    }
}

/// Succeeds exactly when the account is owned by the expected trust domain.
pub fn verify_owner(account: &Account, expected_trust_domain: &Address) -> (r: Result<
    (),
    ErrorCode,
>)
    ensures
        r is Ok <==> account.owner == *expected_trust_domain,
        r is Err ==> r == Err::<(), ErrorCode>(ErrorCode::OwnershipMismatch),
{
    if account.owner == *expected_trust_domain {
        Ok(())
    } else {
        Err(ErrorCode::OwnershipMismatch)
    }
}

/// Succeeds exactly when the account is the one a stored authority names.
///
/// This shows who is named and nothing more. It is always paired with
/// `verify_signer` on the same account, never used in its place.
pub fn verify_authority(account: &Account, stored_authority: &Address) -> (r: Result<
    (),
    ErrorCode,
>)
    ensures
        r is Ok <==> account.address == *stored_authority,
        r is Err ==> r == Err::<(), ErrorCode>(ErrorCode::Unauthorized),
{
    if account.address == *stored_authority {
        Ok(())
    } else {
        Err(ErrorCode::Unauthorized)
    }
}

/// Succeeds exactly when the account data starts with the expected type
/// tag. Data too short to hold a tag does not match.
pub fn verify_discriminator(account: &Account, expected: &[u8; 8]) -> (r: Result<(), ErrorCode>)
    ensures
        r is Ok <==> account@.has_tag(expected@),
        r is Err ==> r == Err::<(), ErrorCode>(ErrorCode::TypeMismatch),
{
    if account.data.len() < DISCRIMINATOR_LEN {
        return Err(ErrorCode::TypeMismatch);
    }
    let mut i: usize = 0;
    while i < DISCRIMINATOR_LEN
        invariant
            i <= DISCRIMINATOR_LEN,
            account.data.len() >= DISCRIMINATOR_LEN,
            forall|j: int| 0 <= j < i ==> account.data[j] == expected[j],
        decreases DISCRIMINATOR_LEN - i,
    {
        if account.data[i] != expected[i] {
            assert(account@.tag()[i as int] != expected@[i as int]);
            return Err(ErrorCode::TypeMismatch);
        }
        i += 1;
    }
    assert(account@.tag() =~= expected@);
    Ok(())
}

/// Succeeds exactly when one-time setup has not yet run on `account`.
///
/// The guard only reads the flag. The setup routine that calls it sets the
/// flag as part of the same mutation.
pub fn guard_first_use<A: InitFlag>(account: &A) -> (r: Result<(), ErrorCode>)
    ensures
        r is Ok <==> !account.is_initialized(),
        r is Err ==> r == Err::<(), ErrorCode>(ErrorCode::AlreadyInitialized),
{
    if account.initialized() {
        Err(ErrorCode::AlreadyInitialized)
    } else {
        Ok(())
    }
}

} // verus!
