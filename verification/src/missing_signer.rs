use vstd::prelude::*;
use vstd::bytes::{lemma_auto_spec_u64_to_from_le_bytes, spec_u64_to_le_bytes};
use vstd::slice::slice_to_vec;
use vstd::string::StringSliceAdditionalSpecFns;
use crate::account::{Account, AccountView};
use crate::address::Address;
use crate::arith::checked_add;
use crate::arith::checked_sub;
use crate::context::Context;
use crate::discriminator::type_tag;
pub use crate::error::ErrorCode;
use crate::funds::{transfer, transfer_error};
use crate::layout::{read_address, read_u64, write_address, write_u64, AccountData};
use crate::loader::{data_with, fields_of, has_room, load, load_error, store, TypedView};
use crate::pda::{canonical_bump, seeds_view, verify_canonical_address};
use crate::pipeline::{blank_error, check_blank, load_signed, load_signed_error};
use crate::verify::{verify_authority, verify_signer};

verus! {

/// A vault: the authority who may withdraw, and the funds recorded for it.
#[derive(Clone, Copy, Debug, PartialEq, Eq)]
pub struct Vault {
    pub authority: Address,
    pub balance: u64,
}

impl AccountData for Vault {
    open spec fn spec_name() -> Seq<u8> {
        "Vault".spec_bytes()
    }

    open spec fn spec_size() -> nat {
        40
    }

    open spec fn encoding(&self) -> Seq<u8> {
        self.authority@ + spec_u64_to_le_bytes(self.balance)
    }

    fn name() -> (n: &'static str) {
        "Vault"
    }

    fn size() -> (n: usize) {
        40
    }

    fn encode(&self) -> (bytes: Vec<u8>) {
        let mut bytes: Vec<u8> = Vec::new();
        write_address(&mut bytes, &self.authority);
        write_u64(&mut bytes, self.balance);
        assert(bytes@ =~= self.encoding());
        bytes
    }

    fn decode(bytes: &[u8]) -> (r: Option<Vault>) {
        if bytes.len() != 40 {
            proof {
                assert forall|v: Vault| #[trigger] v.encoding() != bytes@ by {
                    v.lemma_encoding_len();
                }
            }
            return None;
        }
        let v = Vault { authority: read_address(bytes, 0), balance: read_u64(bytes, 32) };
        proof {
            lemma_auto_spec_u64_to_from_le_bytes();
            assert(v.encoding() =~= bytes@);
        }
        Some(v)
    }

    proof fn lemma_encoding_len(&self) {
        lemma_auto_spec_u64_to_from_le_bytes();
    }

    proof fn lemma_encoding_injective(&self, other: &Vault) {
        lemma_auto_spec_u64_to_from_le_bytes();
        let e = self.encoding();
        assert(self.authority@ =~= e.subrange(0, 32));
        assert(other.authority@ =~= e.subrange(0, 32));
        Address::lemma_view_injective(self.authority, other.authority);
        assert(spec_u64_to_le_bytes(self.balance) =~= e.subrange(32, 40));
        assert(spec_u64_to_le_bytes(other.balance) =~= e.subrange(32, 40));
    }
}

/// The accounts of `initialize`.
#[derive(Debug)]
pub struct Initialize {
    pub vault: Account,
    pub authority: Account,
}

/// The accounts of `deposit`.
#[derive(Debug)]
pub struct Deposit {
    pub vault: Account,
    pub depositor: Account,
}

/// The accounts of `withdraw_vulnerable`. The authority is only named: no
/// signature of it is asked for.
#[derive(Debug)]
pub struct WithdrawVulnerable {
    pub vault: Account,
    pub authority: Account,
    pub recipient: Account,
}

/// The accounts of `withdraw_secure`. The authority must have signed.
#[derive(Debug)]
pub struct WithdrawSecure {
    pub vault: Account,
    pub authority: Account,
    pub recipient: Account,
}

/// The seeds a vault is derived from: the label `vault` and the address of
/// its authority.
pub open spec fn vault_seeds(authority: Address) -> Seq<Seq<u8>> {
    seq!["vault".spec_bytes(), authority@]
}

/// Builds the seeds of `vault_seeds`.
fn make_vault_seeds(authority: &Address) -> (seeds: Vec<Vec<u8>>)
    ensures
        seeds_view(seeds@) == vault_seeds(*authority),
{
    let mut seeds: Vec<Vec<u8>> = Vec::new();
    seeds.push(slice_to_vec("vault".as_bytes()));
    seeds.push(slice_to_vec(authority.bytes.as_slice()));
    assert(seeds_view(seeds@) =~= vault_seeds(*authority));
    seeds
}

/// A vault account holding `fields` and `balance`, and otherwise as
/// `account`.
pub open spec fn vault_with(account: AccountView, fields: Vault, balance: u64) -> AccountView {
    AccountView {
        data: data_with(account, type_tag(Vault::spec_name()), fields),
        balance,
        ..account
    }
}

/// Whether `vault` stands at the canonical address derived from
/// `authority`.
pub open spec fn is_vault_of(vault: AccountView, authority: Address, program_id: Address) -> bool {
    canonical_bump(vault_seeds(authority), program_id, vault.address) is Some
}

/// Why `initialize` rejects, if it does.
pub open spec fn initialize_error(ctx: Context<Initialize>) -> Option<ErrorCode> {
    let vault = ctx.accounts.vault@;
    let authority = ctx.accounts.authority@;
    if blank_error(authority, vault, ctx.program_id) is Some {
        blank_error(authority, vault, ctx.program_id)
    } else if !is_vault_of(vault, authority.address, ctx.program_id) {
        Some(ErrorCode::InvalidDerivedAddress)
    } else if !has_room::<Vault>(vault) {
        Some(ErrorCode::DeserializationFailed)
    } else {
        None
    }
}

/// Sets up a new, empty vault for the authority who signed.
///
/// The vault must be a blank account of this program at the canonical
/// address derived from the authority.
pub fn initialize(ctx: &mut Context<Initialize>) -> (r: Result<(), ErrorCode>)
    ensures
        match initialize_error(*old(ctx)) {
            Some(e) => r == Err::<(), ErrorCode>(e) && *final(ctx) == *old(ctx),
            None => {
                &&& r is Ok
                &&& final(ctx).program_id == old(ctx).program_id
                &&& final(ctx).accounts.authority == old(ctx).accounts.authority
                &&& final(ctx).accounts.vault@ == vault_with(
                    old(ctx).accounts.vault@,
                    Vault { authority: old(ctx).accounts.authority.address, balance: 0 },
                    old(ctx).accounts.vault.balance,
                )
            },
        },
{
    match check_blank(&ctx.accounts.authority, &ctx.accounts.vault, &ctx.program_id) {
        Err(e) => {
            return Err(e);
        },
        Ok(()) => {},
    }
    let seeds = make_vault_seeds(&ctx.accounts.authority.address);
    match verify_canonical_address(&seeds, &ctx.program_id, &ctx.accounts.vault.address) {
        Err(e) => {
            return Err(e);
        },
        Ok(_) => {},
    }
    let fields = Vault { authority: ctx.accounts.authority.address, balance: 0 };
    store(&mut ctx.accounts.vault, &fields)
}

/// Why `deposit` rejects, if it does.
pub open spec fn deposit_error(ctx: Context<Deposit>, amount: u64) -> Option<ErrorCode> {
    let vault = ctx.accounts.vault@;
    let depositor = ctx.accounts.depositor@;
    if load_signed_error::<Vault>(depositor, vault, ctx.program_id) is Some {
        load_signed_error::<Vault>(depositor, vault, ctx.program_id)
    } else if transfer_error(depositor.balance, vault.balance, amount) is Some {
        transfer_error(depositor.balance, vault.balance, amount)
    } else if fields_of::<Vault>(vault).balance + amount > u64::MAX {
        Some(ErrorCode::ArithmeticOverflow)
    } else {
        None
    }
}

/// Moves `amount` from the depositor, who must have signed, into the vault
/// and adds it to the balance the vault records.
pub fn deposit(ctx: &mut Context<Deposit>, amount: u64) -> (r: Result<(), ErrorCode>)
    ensures
        match deposit_error(*old(ctx), amount) {
            Some(e) => r == Err::<(), ErrorCode>(e) && *final(ctx) == *old(ctx),
            None => {
                let fields = fields_of::<Vault>(old(ctx).accounts.vault@);
                &&& r is Ok
                &&& final(ctx).program_id == old(ctx).program_id
                &&& final(ctx).accounts.depositor == (Account {
                    balance: (old(ctx).accounts.depositor.balance - amount) as u64,
                    ..old(ctx).accounts.depositor
                })
                &&& final(ctx).accounts.vault@ == vault_with(
                    old(ctx).accounts.vault@,
                    Vault { balance: (fields.balance + amount) as u64, ..fields },
                    (old(ctx).accounts.vault.balance + amount) as u64,
                )
            },
        },
{
    let mut view: TypedView<Vault> = match load_signed::<Vault>(
        &ctx.accounts.depositor,
        &ctx.accounts.vault,
        &ctx.program_id,
    ) {
        Ok(view) => view,
        Err(e) => {
            return Err(e);
        },
    };
    if ctx.accounts.depositor.balance < amount {
        return Err(ErrorCode::InsufficientFunds);
    }
    if ctx.accounts.vault.balance > u64::MAX - amount {
        return Err(ErrorCode::ArithmeticOverflow);
    }
    let fields = *view.fields();
    let balance = match checked_add(fields.balance, amount) {
        Ok(v) => v,
        Err(e) => {
            return Err(e);
        },
    };
    match transfer(&mut ctx.accounts.depositor, &mut ctx.accounts.vault, amount) {
        Err(e) => {
            return Err(e);
        },
        Ok(()) => {},
    }
    view.set(Vault { authority: fields.authority, balance });
    view.flush(&mut ctx.accounts.vault)
}

/// Why a withdrawal is rejected, if it is. With `signed` the authority must
/// have signed. Without it the authority is only compared with the one the
/// vault stores.
pub open spec fn withdraw_error(
    vault: AccountView,
    authority: AccountView,
    recipient: AccountView,
    program_id: Address,
    amount: u64,
    signed: bool,
) -> Option<ErrorCode> {
    let fields = fields_of::<Vault>(vault);
    if signed && !authority.is_signer {
        Some(ErrorCode::Unauthorized)
    } else if load_error::<Vault>(vault, program_id) is Some {
        load_error::<Vault>(vault, program_id)
    } else if !is_vault_of(vault, authority.address, program_id) {
        Some(ErrorCode::InvalidDerivedAddress)
    } else if fields.authority != authority.address {
        Some(ErrorCode::Unauthorized)
    } else if fields.balance < amount {
        Some(ErrorCode::ArithmeticUnderflow)
    } else {
        transfer_error(vault.balance, recipient.balance, amount)
    }
}

/// The vault after `amount` was withdrawn from it.
pub open spec fn vault_after_withdrawal(vault: AccountView, amount: u64) -> AccountView {
    let fields = fields_of::<Vault>(vault);
    vault_with(
        vault,
        Vault { balance: (fields.balance - amount) as u64, ..fields },
        (vault.balance - amount) as u64,
    )
}

/// The steps the two withdrawals share.
fn withdraw(
    vault: &mut Account,
    authority: &Account,
    recipient: &mut Account,
    program_id: &Address,
    amount: u64,
    signed: bool,
) -> (r: Result<(), ErrorCode>)
    ensures
        match withdraw_error(
            old(vault)@,
            authority@,
            old(recipient)@,
            *program_id,
            amount,
            signed,
        ) {
            Some(e) => {
                &&& r == Err::<(), ErrorCode>(e)
                &&& *final(vault) == *old(vault)
                &&& *final(recipient) == *old(recipient)
            },
            None => {
                &&& r is Ok
                &&& final(vault)@ == vault_after_withdrawal(old(vault)@, amount)
                &&& *final(recipient) == (Account {
                    balance: (old(recipient).balance + amount) as u64,
                    ..*old(recipient)
                })
            },
        },
{
    if signed {
        match verify_signer(authority) {
            Err(e) => {
                return Err(e);
            },
            Ok(()) => {},
        }
    }
    let mut view: TypedView<Vault> = match load::<Vault>(vault, program_id) {
        Ok(view) => view,
        Err(e) => {
            return Err(e);
        },
    };
    let seeds = make_vault_seeds(&authority.address);
    match verify_canonical_address(&seeds, program_id, &vault.address) {
        Err(e) => {
            return Err(e);
        },
        Ok(_) => {},
    }
    let fields = *view.fields();
    match verify_authority(authority, &fields.authority) {
        Err(e) => {
            return Err(e);
        },
        Ok(()) => {},
    }
    let balance = match checked_sub(fields.balance, amount) {
        Ok(v) => v,
        Err(e) => {
            return Err(e);
        },
    };
    match transfer(vault, recipient, amount) {
        Err(e) => {
            return Err(e);
        },
        Ok(()) => {},
    }
    view.set(Vault { authority: fields.authority, balance });
    view.flush(vault)
}

/// Withdraws `amount` from the vault to the recipient without asking for
/// the authority's signature.
///
/// The authority account only has to be the one the vault names, so anyone
/// who knows the authority's address can withdraw. `withdraw_secure` closes
/// this.
pub fn withdraw_vulnerable(ctx: &mut Context<WithdrawVulnerable>, amount: u64) -> (r: Result<
    (),
    ErrorCode,
>)
    ensures
        match withdraw_error(
            old(ctx).accounts.vault@,
            old(ctx).accounts.authority@,
            old(ctx).accounts.recipient@,
            old(ctx).program_id,
            amount,
            false,
        ) {
            Some(e) => r == Err::<(), ErrorCode>(e) && *final(ctx) == *old(ctx),
            None => {
                &&& r is Ok
                &&& final(ctx).program_id == old(ctx).program_id
                &&& final(ctx).accounts.authority == old(ctx).accounts.authority
                &&& final(ctx).accounts.vault@ == vault_after_withdrawal(
                    old(ctx).accounts.vault@,
                    amount,
                )
                &&& final(ctx).accounts.recipient == (Account {
                    balance: (old(ctx).accounts.recipient.balance + amount) as u64,
                    ..old(ctx).accounts.recipient
                })
            },
        },
{
    withdraw(
        &mut ctx.accounts.vault,
        &ctx.accounts.authority,
        &mut ctx.accounts.recipient,
        &ctx.program_id,
        amount,
        false,
    )
}

/// Withdraws `amount` from the vault to the recipient on the authority's
/// signature.
///
/// Two things are asked of the authority account, and both must hold: it
/// signed, and it is the authority the vault names. Without the signature
/// the withdrawal fails with `Unauthorized` whatever the address is.
pub fn withdraw_secure(ctx: &mut Context<WithdrawSecure>, amount: u64) -> (r: Result<(), ErrorCode>)
    ensures
        match withdraw_error(
            old(ctx).accounts.vault@,
            old(ctx).accounts.authority@,
            old(ctx).accounts.recipient@,
            old(ctx).program_id,
            amount,
            true,
        ) {
            Some(e) => r == Err::<(), ErrorCode>(e) && *final(ctx) == *old(ctx),
            None => {
                &&& r is Ok
                &&& final(ctx).program_id == old(ctx).program_id
                &&& final(ctx).accounts.authority == old(ctx).accounts.authority
                &&& final(ctx).accounts.vault@ == vault_after_withdrawal(
                    old(ctx).accounts.vault@,
                    amount,
                )
                &&& final(ctx).accounts.recipient == (Account {
                    balance: (old(ctx).accounts.recipient.balance + amount) as u64,
                    ..old(ctx).accounts.recipient
                })
            },
        },
        !old(ctx).accounts.authority.is_signer ==> r == Err::<(), ErrorCode>(
            ErrorCode::Unauthorized,
        ),
{
    withdraw(
        &mut ctx.accounts.vault,
        &ctx.accounts.authority,
        &mut ctx.accounts.recipient,
        &ctx.program_id,
        amount,
        true,
    )
}

/// What tells the two withdrawals apart: without a signature of the
/// authority the secure one fails with `Unauthorized`, while the vulnerable
/// one does whatever it does with the signature.
pub proof fn lemma_signature_decides(
    vault: AccountView,
    authority: AccountView,
    recipient: AccountView,
    program_id: Address,
    amount: u64,
)
    requires
        !authority.is_signer,
    ensures
        withdraw_error(vault, authority, recipient, program_id, amount, true) == Some(
            ErrorCode::Unauthorized,
        ),
        withdraw_error(vault, authority, recipient, program_id, amount, false) == withdraw_error(
            vault,
            AccountView { is_signer: true, ..authority },
            recipient,
            program_id,
            amount,
            true,
        ),
{
}

} // verus!
