use vstd::prelude::*;
use crate::account::{Account, AccountView};
use crate::address::Address;
use crate::error::ErrorCode;
use crate::layout::AccountData;
use crate::loader::{fields_of, load, load_error, loaded, TypedView};
use crate::verify::{guard_first_use, verify_authority, verify_owner, verify_signer};

verus! {

/// Why `load_signed::<T>` rejects, if it does: the signer is checked first,
/// then the account goes through the loader.
pub open spec fn load_signed_error<T: AccountData>(
    authority: AccountView,
    account: AccountView,
    trust_domain: Address,
) -> Option<ErrorCode> {
    if !authority.is_signer {
        Some(ErrorCode::Unauthorized)
    } else {
        load_error::<T>(account, trust_domain)
    }
}

/// The checks every handler starts with, in their fixed order: the
/// authority signed, the account is owned by `trust_domain`, it carries the
/// tag of `T`, and its bytes decode.
///
/// The first failure is returned as it is.
pub fn load_signed<T: AccountData>(
    authority: &Account,
    account: &Account,
    trust_domain: &Address,
) -> (r: Result<TypedView<T>, ErrorCode>)
    ensures
        match r {
            Ok(view) => {
                &&& load_signed_error::<T>(authority@, account@, *trust_domain) is None
                &&& view@ == loaded::<T>(account@, *trust_domain)
            },
            Err(e) => load_signed_error::<T>(authority@, account@, *trust_domain) == Some(e),
        },
{
    match verify_signer(authority) {
        Err(e) => {
            return Err(e);
        },
        Ok(()) => {},
    }
    load::<T>(account, trust_domain)
}

/// An account type that names the one authority who may act on it.
pub trait Governed: AccountData {
    /// The authority the value names.
    spec fn authority(&self) -> Address;

    /// Reads the authority.
    fn stored_authority(&self) -> (a: Address)
        ensures
            a == self.authority(),
    ;
}

/// Why `load_authorized::<T>` rejects, if it does: after the checks of
/// `load_signed`, the authority must be the one the account names.
pub open spec fn load_authorized_error<T: Governed>(
    authority: AccountView,
    account: AccountView,
    trust_domain: Address,
) -> Option<ErrorCode> {
    if load_signed_error::<T>(authority, account, trust_domain) is Some {
        load_signed_error::<T>(authority, account, trust_domain)
    } else if fields_of::<T>(account).authority() != authority.address {
        Some(ErrorCode::Unauthorized)
    } else {
        None
    }
}

/// Loads an account on behalf of its authority.
///
/// Two things are asked of the authority account, and both must hold: it
/// signed the invocation, and its address is the authority that the loaded
/// account names. Each alone is not enough.
pub fn load_authorized<T: Governed>(
    authority: &Account,
    account: &Account,
    trust_domain: &Address,
) -> (r: Result<TypedView<T>, ErrorCode>)
    ensures
        match r {
            Ok(view) => {
                &&& load_authorized_error::<T>(authority@, account@, *trust_domain) is None
                &&& view@ == loaded::<T>(account@, *trust_domain)
            },
            Err(e) => load_authorized_error::<T>(authority@, account@, *trust_domain) == Some(e),
        },
        !authority.is_signer ==> r is Err && r->Err_0 == ErrorCode::Unauthorized,
{
    let view = match load_signed::<T>(authority, account, trust_domain) {
        Ok(view) => view,
        Err(e) => {
            return Err(e);
        },
    };
    let stored = view.fields().stored_authority();
    match verify_authority(authority, &stored) {
        Err(e) => Err(e),
        Ok(()) => Ok(view),
    }
}

/// Why `check_blank` rejects, if it does.
pub open spec fn blank_error(authority: AccountView, account: AccountView, trust_domain: Address) -> Option<
    ErrorCode,
> {
    if !authority.is_signer {
        Some(ErrorCode::Unauthorized)
    } else if account.owner != trust_domain {
        Some(ErrorCode::OwnershipMismatch)
    } else if account.is_tagged() {
        Some(ErrorCode::AlreadyInitialized)
    } else {
        None
    }
}

/// The checks before an account is set up for the first time: the
/// authority signed, the account is owned by `trust_domain`, and no type
/// tag has been written to it yet.
pub fn check_blank(authority: &Account, account: &Account, trust_domain: &Address) -> (r: Result<
    (),
    ErrorCode,
>)
    ensures
        match blank_error(authority@, account@, *trust_domain) {
            Some(e) => r == Err::<(), ErrorCode>(e),
            None => r is Ok,
        },
{
    match verify_signer(authority) {
        Err(e) => {
            return Err(e);
        },
        Ok(()) => {},
    }
    match verify_owner(account, trust_domain) {
        Err(e) => {
            return Err(e);
        },
        Ok(()) => {},
    }
    guard_first_use(account)
}

} // verus!
