use vstd::prelude::*;
use vstd::bytes::{lemma_auto_spec_u64_to_from_le_bytes, spec_u64_to_le_bytes};
use vstd::slice::slice_to_vec;
use vstd::string::StringSliceAdditionalSpecFns;
use crate::account::{Account, AccountView};
use crate::address::Address;
use crate::context::Context;
use crate::discriminator::type_tag;
pub use crate::error::ErrorCode;
use crate::layout::{read_address, read_u64, write_address, write_u64, AccountData};
use crate::loader::{data_with, TypedView};
use crate::pda::{
    candidate, canonical_bump, derive_with_bump, is_canonical, lemma_canonical_unique, seeds_view,
    verify_canonical_address,
};
use crate::pipeline::{load_signed, load_signed_error};

verus! {

/// A value stored per user at an address derived from the user's key.
#[derive(Clone, Copy, Debug, PartialEq, Eq)]
pub struct DataAccount {
    pub user: Address,
    pub value: u64,
    /// The bump the address was derived with.
    pub bump: u8,
}

impl AccountData for DataAccount {
    open spec fn spec_name() -> Seq<u8> {
        "DataAccount".spec_bytes()
    }

    open spec fn spec_size() -> nat {
        41
    }

    open spec fn encoding(&self) -> Seq<u8> {
        self.user@ + spec_u64_to_le_bytes(self.value) + seq![self.bump]
    }

    fn name() -> (n: &'static str) {
        "DataAccount"
    }

    fn size() -> (n: usize) {
        41
    }

    fn encode(&self) -> (bytes: Vec<u8>) {
        let mut bytes: Vec<u8> = Vec::new();
        write_address(&mut bytes, &self.user);
        write_u64(&mut bytes, self.value);
        bytes.push(self.bump);
        assert(bytes@ =~= self.encoding());
        bytes
    }

    fn decode(bytes: &[u8]) -> (r: Option<DataAccount>) {
        if bytes.len() != 41 {
            proof {
                assert forall|v: DataAccount| #[trigger] v.encoding() != bytes@ by {
                    v.lemma_encoding_len();
                }
            }
            return None;
        }
        let v = DataAccount {
            user: read_address(bytes, 0),
            value: read_u64(bytes, 32),
            bump: bytes[40],
        };
        proof {
            lemma_auto_spec_u64_to_from_le_bytes();
            assert(v.encoding() =~= bytes@);
        }
        Some(v)
    }

    proof fn lemma_encoding_len(&self) {
        lemma_auto_spec_u64_to_from_le_bytes();
    }

    proof fn lemma_encoding_injective(&self, other: &DataAccount) {
        lemma_auto_spec_u64_to_from_le_bytes();
        let e = self.encoding();
        assert(self.user@ =~= e.subrange(0, 32));
        assert(other.user@ =~= e.subrange(0, 32));
        Address::lemma_view_injective(self.user, other.user);
        assert(spec_u64_to_le_bytes(self.value) =~= e.subrange(32, 40));
        assert(spec_u64_to_le_bytes(other.value) =~= e.subrange(32, 40));
        assert(self.bump == e[40]);
        assert(other.bump == e[40]);
    }
}

/// The accounts of `set_value_vulnerable`.
#[derive(Debug)]
pub struct SetValueVulnerable {
    pub data_account: Account,
    pub user: Account,
}

/// The accounts of `set_value_secure`.
#[derive(Debug)]
pub struct SetValueSecure {
    pub data_account: Account,
    pub user: Account,
}

/// The seeds a user's data account is derived from: the label `data` and
/// the user's address.
pub open spec fn data_seeds(user: Address) -> Seq<Seq<u8>> {
    seq!["data".spec_bytes(), user@]
}

/// Builds the seeds of `data_seeds`.
fn make_data_seeds(user: &Address) -> (seeds: Vec<Vec<u8>>)
    ensures
        seeds_view(seeds@) == data_seeds(*user),
{
    let mut seeds: Vec<Vec<u8>> = Vec::new();
    seeds.push(slice_to_vec("data".as_bytes()));
    seeds.push(slice_to_vec(user.bytes.as_slice()));
    assert(seeds_view(seeds@) =~= data_seeds(*user));
    seeds
}

/// The data account after a value was set: the fields are replaced, all
/// else stays.
pub open spec fn data_account_after(account: AccountView, fields: DataAccount) -> AccountView {
    AccountView {
        data: data_with(account, type_tag(DataAccount::spec_name()), fields),
        ..account
    }
}

/// Why `set_value_vulnerable` rejects, if it does.
pub open spec fn set_value_vulnerable_error(ctx: Context<SetValueVulnerable>, bump: u8) -> Option<
    ErrorCode,
> {
    let user = ctx.accounts.user@;
    let account = ctx.accounts.data_account@;
    if load_signed_error::<DataAccount>(user, account, ctx.program_id) is Some {
        load_signed_error::<DataAccount>(user, account, ctx.program_id)
    } else if candidate(data_seeds(user.address), bump, ctx.program_id) != Some(account.address@) {
        Some(ErrorCode::InvalidDerivedAddress)
    } else {
        None
    }
}

/// Stores `value` in the user's data account under a bump the caller
/// supplies.
///
/// Any bump that derives the account's address is accepted, so one user can
/// hold several data accounts, one per valid bump. `set_value_secure` closes
/// this.
pub fn set_value_vulnerable(ctx: &mut Context<SetValueVulnerable>, bump: u8, value: u64) -> (r:
    Result<(), ErrorCode>)
    ensures
        match set_value_vulnerable_error(*old(ctx), bump) {
            Some(e) => r == Err::<(), ErrorCode>(e) && *final(ctx) == *old(ctx),
            None => {
                &&& r is Ok
                &&& final(ctx).program_id == old(ctx).program_id
                &&& final(ctx).accounts.user == old(ctx).accounts.user
                &&& final(ctx).accounts.data_account@ == data_account_after(
                    old(ctx).accounts.data_account@,
                    DataAccount { user: old(ctx).accounts.user.address, value, bump },
                )
            },
        },
{
    let mut view: TypedView<DataAccount> = match load_signed::<DataAccount>(
        &ctx.accounts.user,
        &ctx.accounts.data_account,
        &ctx.program_id,
    ) {
        Ok(view) => view,
        Err(e) => {
            return Err(e);
        },
    };
    let seeds = make_data_seeds(&ctx.accounts.user.address);
    let derived = match derive_with_bump(&seeds, bump, &ctx.program_id) {
        Ok(address) => address,
        Err(e) => {
            return Err(e);
        },
    };
    if derived != ctx.accounts.data_account.address {
        proof {
            if derived@ == ctx.accounts.data_account.address@ {
                Address::lemma_view_injective(derived, ctx.accounts.data_account.address);
            }
        }
        return Err(ErrorCode::InvalidDerivedAddress);
    }
    view.set(DataAccount { user: ctx.accounts.user.address, value, bump });
    view.flush(&mut ctx.accounts.data_account)
}

/// The bump with which the data account stands at the canonical address of
/// the user's seeds, if it does.
pub open spec fn data_account_bump(ctx: Context<SetValueSecure>) -> Option<u8> {
    canonical_bump(
        data_seeds(ctx.accounts.user.address),
        ctx.program_id,
        ctx.accounts.data_account.address,
    )
}

/// Why `set_value_secure` rejects, if it does.
pub open spec fn set_value_secure_error(ctx: Context<SetValueSecure>) -> Option<ErrorCode> {
    let user = ctx.accounts.user@;
    let account = ctx.accounts.data_account@;
    if load_signed_error::<DataAccount>(user, account, ctx.program_id) is Some {
        load_signed_error::<DataAccount>(user, account, ctx.program_id)
    } else if data_account_bump(ctx) is None {
        Some(ErrorCode::InvalidDerivedAddress)
    } else {
        None
    }
}

/// Stores `value` in the user's data account, which must stand at the
/// canonical address of the user's seeds.
///
/// No bump is taken from the caller. The canonical pair is derived from the
/// seeds, and the bump that is stored is the canonical one.
pub fn set_value_secure(ctx: &mut Context<SetValueSecure>, value: u64) -> (r: Result<(), ErrorCode>)
    ensures
        match set_value_secure_error(*old(ctx)) {
            Some(e) => r == Err::<(), ErrorCode>(e) && *final(ctx) == *old(ctx),
            None => {
                &&& r is Ok
                &&& final(ctx).program_id == old(ctx).program_id
                &&& final(ctx).accounts.user == old(ctx).accounts.user
                &&& final(ctx).accounts.data_account@ == data_account_after(
                    old(ctx).accounts.data_account@,
                    DataAccount {
                        user: old(ctx).accounts.user.address,
                        value,
                        bump: data_account_bump(*old(ctx))->Some_0,
                    },
                )
            },
        },
{
    let mut view: TypedView<DataAccount> = match load_signed::<DataAccount>(
        &ctx.accounts.user,
        &ctx.accounts.data_account,
        &ctx.program_id,
    ) {
        Ok(view) => view,
        Err(e) => {
            return Err(e);
        },
    };
    let seeds = make_data_seeds(&ctx.accounts.user.address);
    let bump = match verify_canonical_address(
        &seeds,
        &ctx.program_id,
        &ctx.accounts.data_account.address,
    ) {
        Ok(bump) => bump,
        Err(e) => {
            return Err(e);
        },
    };
    view.set(DataAccount { user: ctx.accounts.user.address, value, bump });
    view.flush(&mut ctx.accounts.data_account)
}

/// What makes `set_value_secure` safe: a user has one data account. Two
/// invocations for the same user in the same program that both pass are for
/// the same address.
pub proof fn lemma_one_account_per_user(first: Context<SetValueSecure>, second: Context<SetValueSecure>)
    requires
        first.program_id == second.program_id,
        first.accounts.user.address == second.accounts.user.address,
        set_value_secure_error(first) is None,
        set_value_secure_error(second) is None,
    ensures
        first.accounts.data_account.address == second.accounts.data_account.address,
        data_account_bump(first) == data_account_bump(second),
{
    let seeds = data_seeds(first.accounts.user.address);
    let b1 = choose|b: u8|
        is_canonical(seeds, first.program_id, first.accounts.data_account.address, b);
    let b2 = choose|b: u8|
        is_canonical(seeds, first.program_id, second.accounts.data_account.address, b);
    lemma_canonical_unique(
        seeds,
        first.program_id,
        first.accounts.data_account.address,
        b1,
        second.accounts.data_account.address,
        b2,
    );
}

} // verus!
