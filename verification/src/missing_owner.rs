use vstd::prelude::*;
use vstd::bytes::{lemma_auto_spec_u64_to_from_le_bytes, spec_u64_from_le_bytes, spec_u64_to_le_bytes};
use vstd::string::StringSliceAdditionalSpecFns;
use crate::account::{Account, AccountView};
use crate::address::Address;
use crate::context::Context;
use crate::discriminator::type_tag;
pub use crate::error::ErrorCode;
use crate::layout::{
    read_address, read_bool, read_u64, spec_bool_to_byte, write_address, write_bool, write_u64,
    AccountData,
};
use crate::loader::{data_with, fields_of, has_room, store};
use crate::pipeline::{blank_error, check_blank, load_authorized, load_authorized_error, Governed};
use crate::verify::verify_signer;

verus! {

/// A treasury: its authority, the funds it records, and whether it is
/// switched on.
#[derive(Clone, Copy, Debug, PartialEq, Eq)]
pub struct Treasury {
    pub authority: Address,
    pub balance: u64,
    pub is_active: bool,
}

impl AccountData for Treasury {
    open spec fn spec_name() -> Seq<u8> {
        "Treasury".spec_bytes()
    }

    open spec fn spec_size() -> nat {
        41
    }

    open spec fn encoding(&self) -> Seq<u8> {
        self.authority@ + spec_u64_to_le_bytes(self.balance) + seq![
            spec_bool_to_byte(self.is_active),
        ]
    }

    fn name() -> (n: &'static str) {
        "Treasury"
    }

    fn size() -> (n: usize) {
        41
    }

    fn encode(&self) -> (bytes: Vec<u8>) {
        let mut bytes: Vec<u8> = Vec::new();
        write_address(&mut bytes, &self.authority);
        write_u64(&mut bytes, self.balance);
        write_bool(&mut bytes, self.is_active);
        assert(bytes@ =~= self.encoding());
        bytes
    }

    fn decode(bytes: &[u8]) -> (r: Option<Treasury>) {
        if bytes.len() != 41 {
            proof {
                assert forall|v: Treasury| #[trigger] v.encoding() != bytes@ by {
                    v.lemma_encoding_len();
                }
            }
            return None;
        }
        let is_active = match read_bool(bytes, 40) {
            Some(b) => b,
            None => {
                proof {
                    assert forall|v: Treasury| #[trigger] v.encoding() != bytes@ by {
                        v.lemma_encoding_len();
                        assert(v.encoding()[40] == spec_bool_to_byte(v.is_active));
                    }
                }
                return None;
            },
        };
        let v = Treasury {
            authority: read_address(bytes, 0),
            balance: read_u64(bytes, 32),
            is_active,
        };
        proof {
            lemma_auto_spec_u64_to_from_le_bytes();
            assert(v.encoding() =~= bytes@);
        }
        Some(v)
    }

    proof fn lemma_encoding_len(&self) {
        lemma_auto_spec_u64_to_from_le_bytes();
    }

    proof fn lemma_encoding_injective(&self, other: &Treasury) {
        lemma_auto_spec_u64_to_from_le_bytes();
        let e = self.encoding();
        assert(self.authority@ =~= e.subrange(0, 32));
        assert(other.authority@ =~= e.subrange(0, 32));
        Address::lemma_view_injective(self.authority, other.authority);
        assert(spec_u64_to_le_bytes(self.balance) =~= e.subrange(32, 40));
        assert(spec_u64_to_le_bytes(other.balance) =~= e.subrange(32, 40));
        assert(spec_bool_to_byte(self.is_active) == e[40]);
        assert(spec_bool_to_byte(other.is_active) == e[40]);
    }
}

impl Governed for Treasury {
    open spec fn authority(&self) -> Address {
        self.authority
    }

    fn stored_authority(&self) -> (a: Address) {
        self.authority
    }
}

/// The accounts of `initialize`.
#[derive(Debug)]
pub struct Initialize {
    pub treasury: Account,
    pub authority: Account,
}

/// The accounts of `process_vulnerable`. The treasury is a raw account:
/// its owner is never looked at.
#[derive(Debug)]
pub struct ProcessVulnerable {
    pub treasury: Account,
    pub authority: Account,
}

/// The accounts of `process_secure`.
#[derive(Debug)]
pub struct ProcessSecure {
    pub treasury: Account,
    pub authority: Account,
}

/// Offset of the authority in treasury data, behind the tag.
pub const AUTHORITY_OFFSET: usize = 8;

/// Offset of the balance in treasury data.
pub const BALANCE_OFFSET: usize = 40;

/// Offset of the activity flag in treasury data.
pub const ACTIVE_OFFSET: usize = 48;

/// Why `initialize` rejects, if it does.
pub open spec fn initialize_error(ctx: Context<Initialize>) -> Option<ErrorCode> {
    let treasury = ctx.accounts.treasury@;
    if blank_error(ctx.accounts.authority@, treasury, ctx.program_id) is Some {
        blank_error(ctx.accounts.authority@, treasury, ctx.program_id)
    } else if !has_room::<Treasury>(treasury) {
        Some(ErrorCode::DeserializationFailed)
    } else {
        None
    }
}

/// Sets up a new, active treasury that records `amount`, for the authority
/// who signed.
pub fn initialize(ctx: &mut Context<Initialize>, amount: u64) -> (r: Result<(), ErrorCode>)
    ensures
        match initialize_error(*old(ctx)) {
            Some(e) => r == Err::<(), ErrorCode>(e) && *final(ctx) == *old(ctx),
            None => {
                let treasury = old(ctx).accounts.treasury@;
                &&& r is Ok
                &&& final(ctx).program_id == old(ctx).program_id
                &&& final(ctx).accounts.authority == old(ctx).accounts.authority
                &&& final(ctx).accounts.treasury@ == (AccountView {
                    data: data_with(
                        treasury,
                        type_tag(Treasury::spec_name()),
                        Treasury {
                            authority: old(ctx).accounts.authority.address,
                            balance: amount,
                            is_active: true,
                        },
                    ),
                    ..treasury
                })
            },
        },
{
    match check_blank(&ctx.accounts.authority, &ctx.accounts.treasury, &ctx.program_id) {
        Err(e) => {
            return Err(e);
        },
        Ok(()) => {},
    }
    let fields = Treasury {
        authority: ctx.accounts.authority.address,
        balance: amount,
        is_active: true,
    };
    store(&mut ctx.accounts.treasury, &fields)
}

/// Why `process_vulnerable` rejects, if it does. Any flag byte but zero
/// counts as active.
pub open spec fn process_vulnerable_error(ctx: Context<ProcessVulnerable>) -> Option<ErrorCode> {
    let treasury = ctx.accounts.treasury@;
    if !ctx.accounts.authority.is_signer {
        Some(ErrorCode::Unauthorized)
    } else if treasury.data.len() <= ACTIVE_OFFSET {
        Some(ErrorCode::DeserializationFailed)
    } else if treasury.data[ACTIVE_OFFSET as int] == 0 {
        Some(ErrorCode::TreasuryInactive)
    } else {
        None
    }
}

/// Reads a treasury from the account bytes at fixed offsets and returns
/// what it found, if the treasury is active.
///
/// Neither the owner of the account nor its tag is checked, so bytes that
/// any program wrote in the treasury's layout are taken at their word.
/// `process_secure` closes this.
pub fn process_vulnerable(ctx: &Context<ProcessVulnerable>) -> (r: Result<Treasury, ErrorCode>)
    ensures
        match process_vulnerable_error(*ctx) {
            Some(e) => r == Err::<Treasury, ErrorCode>(e),
            None => {
                let data = ctx.accounts.treasury.data@;
                &&& r matches Ok(found)
                &&& found.authority@ == data.subrange(AUTHORITY_OFFSET as int, BALANCE_OFFSET as int)
                &&& found.balance == spec_u64_from_le_bytes(
                    data.subrange(BALANCE_OFFSET as int, ACTIVE_OFFSET as int),
                )
                &&& found.is_active
            },
        },
{
    match verify_signer(&ctx.accounts.authority) {
        Err(e) => {
            return Err(e);
        },
        Ok(()) => {},
    }
    let data = ctx.accounts.treasury.data.as_slice();
    if data.len() <= ACTIVE_OFFSET {
        return Err(ErrorCode::DeserializationFailed);
    }
    let authority = read_address(data, AUTHORITY_OFFSET);
    let balance = read_u64(data, BALANCE_OFFSET);
    let is_active = data[ACTIVE_OFFSET] != 0;
    if !is_active {
        return Err(ErrorCode::TreasuryInactive);
    }
    Ok(Treasury { authority, balance, is_active })
}

/// Why `process_secure` rejects, if it does.
pub open spec fn process_secure_error(ctx: Context<ProcessSecure>) -> Option<ErrorCode> {
    let treasury = ctx.accounts.treasury@;
    let authority = ctx.accounts.authority@;
    if load_authorized_error::<Treasury>(authority, treasury, ctx.program_id) is Some {
        load_authorized_error::<Treasury>(authority, treasury, ctx.program_id)
    } else if !fields_of::<Treasury>(treasury).is_active {
        Some(ErrorCode::TreasuryInactive)
    } else {
        None
    }
}

/// Loads the treasury on behalf of its authority and returns its fields, if
/// the treasury is active.
///
/// The account goes through the loader, so a treasury-shaped account that
/// another program owns is rejected with `OwnershipMismatch` before any of
/// its bytes are read.
pub fn process_secure(ctx: &Context<ProcessSecure>) -> (r: Result<Treasury, ErrorCode>)
    ensures
        match process_secure_error(*ctx) {
            Some(e) => r == Err::<Treasury, ErrorCode>(e),
            None => r == Ok::<Treasury, ErrorCode>(fields_of::<Treasury>(ctx.accounts.treasury@)),
        },
        ctx.accounts.treasury.owner != ctx.program_id && ctx.accounts.authority.is_signer ==> r
            == Err::<Treasury, ErrorCode>(ErrorCode::OwnershipMismatch),
{
    let view = match load_authorized::<Treasury>(
        &ctx.accounts.authority,
        &ctx.accounts.treasury,
        &ctx.program_id,
    ) {
        Ok(view) => view,
        Err(e) => {
            return Err(e);
        },
    };
    let fields = *view.fields();
    if !fields.is_active {
        return Err(ErrorCode::TreasuryInactive);
    }
    Ok(fields)
}

/// What makes `process_vulnerable` unsafe: who owns the treasury account
/// plays no part in its outcome.
pub proof fn lemma_owner_not_asked(ctx: Context<ProcessVulnerable>, owner: Address)
    ensures
        process_vulnerable_error(
            Context {
                accounts: ProcessVulnerable {
                    treasury: Account { owner, ..ctx.accounts.treasury },
                    ..ctx.accounts
                },
                ..ctx
            },
        ) == process_vulnerable_error(ctx),
{
}

/// What makes `process_secure` safe: a treasury account of another owner is
/// rejected with `OwnershipMismatch` on any signature, whatever its bytes
/// are.
pub proof fn lemma_foreign_owner_rejected(ctx: Context<ProcessSecure>)
    requires
        ctx.accounts.treasury.owner != ctx.program_id,
        ctx.accounts.authority.is_signer,
    ensures
        process_secure_error(ctx) == Some(ErrorCode::OwnershipMismatch),
{
}

} // verus!
