use vstd::prelude::*;
use vstd::bytes::{lemma_auto_spec_u64_to_from_le_bytes, spec_u64_to_le_bytes};
use vstd::string::StringSliceAdditionalSpecFns;
use crate::account::{Account, AccountView};
use crate::address::Address;
use crate::arith::checked_add;
use crate::arith::checked_sub;
use crate::context::Context;
use crate::discriminator::type_tag;
pub use crate::error::ErrorCode;
use crate::layout::{read_address, read_u64, write_address, write_u64, AccountData};
use crate::loader::{data_with, fields_of, has_room, store, TypedView};
use crate::pipeline::{blank_error, check_blank, load_authorized, load_authorized_error, Governed};

verus! {

/// A token ledger: its authority, the total supply, and the balance of the
/// one user it tracks.
#[derive(Clone, Copy, Debug, PartialEq, Eq)]
pub struct Ledger {
    pub authority: Address,
    pub total_supply: u64,
    pub user_balance: u64,
}

impl AccountData for Ledger {
    open spec fn spec_name() -> Seq<u8> {
        "Ledger".spec_bytes()
    }

    open spec fn spec_size() -> nat {
        48
    }

    open spec fn encoding(&self) -> Seq<u8> {
        self.authority@ + spec_u64_to_le_bytes(self.total_supply) + spec_u64_to_le_bytes(
            self.user_balance,
        )
    }

    fn name() -> (n: &'static str) {
        "Ledger"
    }

    fn size() -> (n: usize) {
        48
    }

    fn encode(&self) -> (bytes: Vec<u8>) {
        let mut bytes: Vec<u8> = Vec::new();
        write_address(&mut bytes, &self.authority);
        write_u64(&mut bytes, self.total_supply);
        write_u64(&mut bytes, self.user_balance);
        assert(bytes@ =~= self.encoding());
        bytes
    }

    fn decode(bytes: &[u8]) -> (r: Option<Ledger>) {
        if bytes.len() != 48 {
            proof {
                assert forall|v: Ledger| #[trigger] v.encoding() != bytes@ by {
                    v.lemma_encoding_len();
                }
            }
            return None;
        }
        let v = Ledger {
            authority: read_address(bytes, 0),
            total_supply: read_u64(bytes, 32),
            user_balance: read_u64(bytes, 40),
        };
        proof {
            lemma_auto_spec_u64_to_from_le_bytes();
            assert(v.encoding() =~= bytes@);
        }
        Some(v)
    }

    proof fn lemma_encoding_len(&self) {
        lemma_auto_spec_u64_to_from_le_bytes();
    }

    proof fn lemma_encoding_injective(&self, other: &Ledger) {
        lemma_auto_spec_u64_to_from_le_bytes();
        let e = self.encoding();
        assert(self.authority@ =~= e.subrange(0, 32));
        assert(other.authority@ =~= e.subrange(0, 32));
        Address::lemma_view_injective(self.authority, other.authority);
        assert(spec_u64_to_le_bytes(self.total_supply) =~= e.subrange(32, 40));
        assert(spec_u64_to_le_bytes(other.total_supply) =~= e.subrange(32, 40));
        assert(spec_u64_to_le_bytes(self.user_balance) =~= e.subrange(40, 48));
        assert(spec_u64_to_le_bytes(other.user_balance) =~= e.subrange(40, 48));
    }
}

impl Governed for Ledger {
    open spec fn authority(&self) -> Address {
        self.authority
    }

    fn stored_authority(&self) -> (a: Address) {
        self.authority
    }
}

/// The accounts of `initialize`.
#[derive(Debug)]
pub struct Initialize {
    pub ledger: Account,
    pub authority: Account,
}

/// The accounts of the mint and burn instructions.
#[derive(Debug)]
pub struct Operate {
    pub ledger: Account,
    pub authority: Account,
}

/// A ledger account holding `fields`, and otherwise as `account`.
pub open spec fn ledger_with(account: AccountView, fields: Ledger) -> AccountView {
    AccountView { data: data_with(account, type_tag(Ledger::spec_name()), fields), ..account }
}

/// The value a 64-bit integer takes when `x` is stored in it without a
/// check: `x` modulo 2^64.
pub open spec fn wrapped(x: int) -> u64 {
    (x % 0x1_0000_0000_0000_0000) as u64
}

/// Why `initialize` rejects, if it does.
pub open spec fn initialize_error(ctx: Context<Initialize>) -> Option<ErrorCode> {
    let ledger = ctx.accounts.ledger@;
    if blank_error(ctx.accounts.authority@, ledger, ctx.program_id) is Some {
        blank_error(ctx.accounts.authority@, ledger, ctx.program_id)
    } else if !has_room::<Ledger>(ledger) {
        Some(ErrorCode::DeserializationFailed)
    } else {
        None
    }
}

/// Sets up a new ledger with the given supply and no user balance, for the
/// authority who signed.
pub fn initialize(ctx: &mut Context<Initialize>, initial_supply: u64) -> (r: Result<(), ErrorCode>)
    ensures
        match initialize_error(*old(ctx)) {
            Some(e) => r == Err::<(), ErrorCode>(e) && *final(ctx) == *old(ctx),
            None => {
                &&& r is Ok
                &&& final(ctx).program_id == old(ctx).program_id
                &&& final(ctx).accounts.authority == old(ctx).accounts.authority
                &&& final(ctx).accounts.ledger@ == ledger_with(
                    old(ctx).accounts.ledger@,
                    Ledger {
                        authority: old(ctx).accounts.authority.address,
                        total_supply: initial_supply,
                        user_balance: 0,
                    },
                )
            },
        },
{
    match check_blank(&ctx.accounts.authority, &ctx.accounts.ledger, &ctx.program_id) {
        Err(e) => {
            return Err(e);
        },
        Ok(()) => {},
    }
    let fields = Ledger {
        authority: ctx.accounts.authority.address,
        total_supply: initial_supply,
        user_balance: 0,
    };
    store(&mut ctx.accounts.ledger, &fields)
}

/// Why the ledger of an operation cannot be loaded for its authority, if it
/// cannot.
pub open spec fn operate_error(ctx: Context<Operate>) -> Option<ErrorCode> {
    load_authorized_error::<Ledger>(
        ctx.accounts.authority@,
        ctx.accounts.ledger@,
        ctx.program_id,
    )
}

/// Whether an operation left everything as it was but the fields of the
/// ledger, which are now `fields`.
pub open spec fn ledger_became(before: Context<Operate>, after: Context<Operate>, fields: Ledger) -> bool {
    &&& after.program_id == before.program_id
    &&& after.accounts.authority == before.accounts.authority
    &&& after.accounts.ledger@ == ledger_with(before.accounts.ledger@, fields)
}

/// Mints `amount` with unchecked arithmetic.
///
/// Supply and balance wrap around at 2^64, so minting 1 at the largest
/// supply leaves a supply of 0. `mint_secure` closes this.
pub fn mint_vulnerable(ctx: &mut Context<Operate>, amount: u64) -> (r: Result<(), ErrorCode>)
    ensures
        match operate_error(*old(ctx)) {
            Some(e) => r == Err::<(), ErrorCode>(e) && *final(ctx) == *old(ctx),
            None => {
                let fields = fields_of::<Ledger>(old(ctx).accounts.ledger@);
                &&& r is Ok
                &&& ledger_became(
                    *old(ctx),
                    *final(ctx),
                    Ledger {
                        total_supply: wrapped(fields.total_supply + amount),
                        user_balance: wrapped(fields.user_balance + amount),
                        ..fields
                    },
                )
            },
        },
{
    let mut view: TypedView<Ledger> = match load_authorized::<Ledger>(
        &ctx.accounts.authority,
        &ctx.accounts.ledger,
        &ctx.program_id,
    ) {
        Ok(view) => view,
        Err(e) => {
            return Err(e);
        },
    };
    let fields = *view.fields();
    view.set(
        Ledger {
            authority: fields.authority,
            total_supply: fields.total_supply.wrapping_add(amount),
            user_balance: fields.user_balance.wrapping_add(amount),
        },
    );
    view.flush(&mut ctx.accounts.ledger)
}

/// Burns `amount` with unchecked arithmetic.
///
/// Balance and supply wrap around below zero, so burning 11 from a balance
/// of 10 leaves the largest balance there is. `burn_secure` closes this.
pub fn burn_vulnerable(ctx: &mut Context<Operate>, amount: u64) -> (r: Result<(), ErrorCode>)
    ensures
        match operate_error(*old(ctx)) {
            Some(e) => r == Err::<(), ErrorCode>(e) && *final(ctx) == *old(ctx),
            None => {
                let fields = fields_of::<Ledger>(old(ctx).accounts.ledger@);
                &&& r is Ok
                &&& ledger_became(
                    *old(ctx),
                    *final(ctx),
                    Ledger {
                        total_supply: wrapped(fields.total_supply - amount),
                        user_balance: wrapped(fields.user_balance - amount),
                        ..fields
                    },
                )
            },
        },
{
    let mut view: TypedView<Ledger> = match load_authorized::<Ledger>(
        &ctx.accounts.authority,
        &ctx.accounts.ledger,
        &ctx.program_id,
    ) {
        Ok(view) => view,
        Err(e) => {
            return Err(e);
        },
    };
    let fields = *view.fields();
    view.set(
        Ledger {
            authority: fields.authority,
            total_supply: fields.total_supply.wrapping_sub(amount),
            user_balance: fields.user_balance.wrapping_sub(amount),
        },
    );
    view.flush(&mut ctx.accounts.ledger)
}

/// Why `mint_secure` rejects, if it does.
pub open spec fn mint_secure_error(ctx: Context<Operate>, amount: u64) -> Option<ErrorCode> {
    let fields = fields_of::<Ledger>(ctx.accounts.ledger@);
    if operate_error(ctx) is Some {
        operate_error(ctx)
    } else if fields.total_supply + amount > u64::MAX || fields.user_balance + amount > u64::MAX {
        Some(ErrorCode::ArithmeticOverflow)
    } else {
        None
    }
}

/// Mints `amount`: adds it to the total supply and to the user's balance.
///
/// Both sums are exact. If either would not fit, nothing is minted.
pub fn mint_secure(ctx: &mut Context<Operate>, amount: u64) -> (r: Result<(), ErrorCode>)
    ensures
        match mint_secure_error(*old(ctx), amount) {
            Some(e) => r == Err::<(), ErrorCode>(e) && *final(ctx) == *old(ctx),
            None => {
                let fields = fields_of::<Ledger>(old(ctx).accounts.ledger@);
                &&& r is Ok
                &&& ledger_became(
                    *old(ctx),
                    *final(ctx),
                    Ledger {
                        total_supply: (fields.total_supply + amount) as u64,
                        user_balance: (fields.user_balance + amount) as u64,
                        ..fields
                    },
                )
            },
        },
{
    let mut view: TypedView<Ledger> = match load_authorized::<Ledger>(
        &ctx.accounts.authority,
        &ctx.accounts.ledger,
        &ctx.program_id,
    ) {
        Ok(view) => view,
        Err(e) => {
            return Err(e);
        },
    };
    let fields = *view.fields();
    let total_supply = match checked_add(fields.total_supply, amount) {
        Ok(v) => v,
        Err(e) => {
            return Err(e);
        },
    };
    let user_balance = match checked_add(fields.user_balance, amount) {
        Ok(v) => v,
        Err(e) => {
            return Err(e);
        },
    };
    view.set(Ledger { authority: fields.authority, total_supply, user_balance });
    view.flush(&mut ctx.accounts.ledger)
}

/// Why `burn_secure` rejects, if it does.
pub open spec fn burn_secure_error(ctx: Context<Operate>, amount: u64) -> Option<ErrorCode> {
    let fields = fields_of::<Ledger>(ctx.accounts.ledger@);
    if operate_error(ctx) is Some {
        operate_error(ctx)
    } else if fields.user_balance < amount || fields.total_supply < amount {
        Some(ErrorCode::ArithmeticUnderflow)
    } else {
        None
    }
}

/// Burns `amount`: takes it from the user's balance and from the total
/// supply.
///
/// Both differences are exact. If either would be negative, nothing is
/// burned.
pub fn burn_secure(ctx: &mut Context<Operate>, amount: u64) -> (r: Result<(), ErrorCode>)
    ensures
        match burn_secure_error(*old(ctx), amount) {
            Some(e) => r == Err::<(), ErrorCode>(e) && *final(ctx) == *old(ctx),
            None => {
                let fields = fields_of::<Ledger>(old(ctx).accounts.ledger@);
                &&& r is Ok
                &&& ledger_became(
                    *old(ctx),
                    *final(ctx),
                    Ledger {
                        total_supply: (fields.total_supply - amount) as u64,
                        user_balance: (fields.user_balance - amount) as u64,
                        ..fields
                    },
                )
            },
        },
{
    let mut view: TypedView<Ledger> = match load_authorized::<Ledger>(
        &ctx.accounts.authority,
        &ctx.accounts.ledger,
        &ctx.program_id,
    ) {
        Ok(view) => view,
        Err(e) => {
            return Err(e);
        },
    };
    let fields = *view.fields();
    let user_balance = match checked_sub(fields.user_balance, amount) {
        Ok(v) => v,
        Err(e) => {
            return Err(e);
        },
    };
    let total_supply = match checked_sub(fields.total_supply, amount) {
        Ok(v) => v,
        Err(e) => {
            return Err(e);
        },
    };
    view.set(Ledger { authority: fields.authority, total_supply, user_balance });
    view.flush(&mut ctx.accounts.ledger)
}

} // verus!
