use vstd::prelude::*;
use vstd::bytes::{lemma_auto_spec_u64_to_from_le_bytes, spec_u64_to_le_bytes, u64_to_le_bytes};
use vstd::string::{is_ascii_spec_bytes, StringSliceAdditionalSpecFns};
use crate::account::{Account, AccountView};
use crate::address::Address;
use crate::context::Context;
use crate::discriminator::type_tag;
pub use crate::error::ErrorCode;
use crate::layout::{read_address, read_u64, write_address, write_u64, AccountData};
use crate::buffer::write_at;
use crate::loader::{data_with, fields_of, load_error, payload, TypedView};
use crate::registry::Registry;
use crate::pipeline::{load_authorized, load_authorized_error, Governed};
use crate::verify::{verify_authority, verify_signer};

verus! {

/// The configuration of fees, which only the admin may change.
#[derive(Clone, Copy, Debug, PartialEq, Eq)]
pub struct AdminConfig {
    pub admin: Address,
    pub fee_basis_points: u64,
}

/// The data of one user. Its bytes are laid out as those of `AdminConfig`:
/// an address, then an integer. Only the type tag tells the two apart.
#[derive(Clone, Copy, Debug, PartialEq, Eq)]
pub struct UserData {
    pub authority: Address,
    pub balance: u64,
}

impl AccountData for AdminConfig {
    open spec fn spec_name() -> Seq<u8> {
        "AdminConfig".spec_bytes()
    }

    open spec fn spec_size() -> nat {
        40
    }

    open spec fn encoding(&self) -> Seq<u8> {
        self.admin@ + spec_u64_to_le_bytes(self.fee_basis_points)
    }

    fn name() -> (n: &'static str) {
        "AdminConfig"
    }

    fn size() -> (n: usize) {
        40
    }

    fn encode(&self) -> (bytes: Vec<u8>) {
        let mut bytes: Vec<u8> = Vec::new();
        write_address(&mut bytes, &self.admin);
        write_u64(&mut bytes, self.fee_basis_points);
        assert(bytes@ =~= self.encoding());
        bytes
    }

    fn decode(bytes: &[u8]) -> (r: Option<AdminConfig>) {
        if bytes.len() != 40 {
            proof {
                assert forall|v: AdminConfig| #[trigger] v.encoding() != bytes@ by {
                    v.lemma_encoding_len();
                }
            }
            return None;
        }
        let v = AdminConfig {
            admin: read_address(bytes, 0),
            fee_basis_points: read_u64(bytes, 32),
        };
        proof {
            lemma_auto_spec_u64_to_from_le_bytes();
            assert(v.encoding() =~= bytes@);
        }
        Some(v)
    }

    proof fn lemma_encoding_len(&self) {
        lemma_auto_spec_u64_to_from_le_bytes();
    }

    proof fn lemma_encoding_injective(&self, other: &AdminConfig) {
        lemma_auto_spec_u64_to_from_le_bytes();
        let e = self.encoding();
        assert(self.admin@ =~= e.subrange(0, 32));
        assert(other.admin@ =~= e.subrange(0, 32));
        Address::lemma_view_injective(self.admin, other.admin);
        assert(spec_u64_to_le_bytes(self.fee_basis_points) =~= e.subrange(32, 40));
        assert(spec_u64_to_le_bytes(other.fee_basis_points) =~= e.subrange(32, 40));
    }
}

impl Governed for AdminConfig {
    open spec fn authority(&self) -> Address {
        self.admin
    }

    fn stored_authority(&self) -> (a: Address) {
        self.admin
    }
}

impl AccountData for UserData {
    open spec fn spec_name() -> Seq<u8> {
        "UserData".spec_bytes()
    }

    open spec fn spec_size() -> nat {
        40
    }

    open spec fn encoding(&self) -> Seq<u8> {
        self.authority@ + spec_u64_to_le_bytes(self.balance)
    }

    fn name() -> (n: &'static str) {
        "UserData"
    }

    fn size() -> (n: usize) {
        40
    }

    fn encode(&self) -> (bytes: Vec<u8>) {
        let mut bytes: Vec<u8> = Vec::new();
        write_address(&mut bytes, &self.authority);
        write_u64(&mut bytes, self.balance);
        assert(bytes@ =~= self.encoding());
        bytes
    }

    fn decode(bytes: &[u8]) -> (r: Option<UserData>) {
        if bytes.len() != 40 {
            proof {
                assert forall|v: UserData| #[trigger] v.encoding() != bytes@ by {
                    v.lemma_encoding_len();
                }
            }
            return None;
        }
        let v = UserData { authority: read_address(bytes, 0), balance: read_u64(bytes, 32) };
        proof {
            lemma_auto_spec_u64_to_from_le_bytes();
            assert(v.encoding() =~= bytes@);
        }
        Some(v)
    }

    proof fn lemma_encoding_len(&self) {
        lemma_auto_spec_u64_to_from_le_bytes();
    }

    proof fn lemma_encoding_injective(&self, other: &UserData) {
        lemma_auto_spec_u64_to_from_le_bytes();
        let e = self.encoding();
        assert(self.authority@ =~= e.subrange(0, 32));
        assert(other.authority@ =~= e.subrange(0, 32));
        Address::lemma_view_injective(self.authority, other.authority);
        assert(spec_u64_to_le_bytes(self.balance) =~= e.subrange(32, 40));
        assert(spec_u64_to_le_bytes(other.balance) =~= e.subrange(32, 40));
    }
}

/// The accounts of `update_fee_vulnerable`. The configuration is a raw
/// account: neither its owner nor its tag is looked at.
#[derive(Debug)]
pub struct UpdateFeeVulnerable {
    pub config: Account,
    pub authority: Account,
}

/// The accounts of `update_fee_secure`.
#[derive(Debug)]
pub struct UpdateFeeSecure {
    pub config: Account,
    pub authority: Account,
}

/// Offset of the address in the data of either type, behind the tag.
pub const ADMIN_OFFSET: usize = 8;

/// Offset of the integer in the data of either type, behind the address.
pub const FEE_OFFSET: usize = 40;

/// Offset of the first byte behind the integer.
pub const FEE_END: usize = 48;

/// The bytes at the fixed offset where an admin's address would stand.
pub open spec fn raw_admin(config: AccountView) -> Seq<u8> {
    config.data.subrange(ADMIN_OFFSET as int, FEE_OFFSET as int)
}

/// Why `update_fee_vulnerable` rejects, if it does.
pub open spec fn update_fee_vulnerable_error(ctx: Context<UpdateFeeVulnerable>) -> Option<
    ErrorCode,
> {
    let config = ctx.accounts.config@;
    let authority = ctx.accounts.authority@;
    if !authority.is_signer {
        Some(ErrorCode::Unauthorized)
    } else if config.data.len() < FEE_OFFSET {
        Some(ErrorCode::DeserializationFailed)
    } else if raw_admin(config) != authority.address@ {
        Some(ErrorCode::Unauthorized)
    } else if config.data.len() < FEE_END {
        Some(ErrorCode::DeserializationFailed)
    } else {
        None
    }
}

/// Sets the fee by reading and writing the account bytes at fixed offsets.
///
/// The signer must be the address found at the admin's offset. Since the
/// tag before it is never read, an account of another type with an address
/// at that offset is taken for the configuration, and since the owner is
/// never read, so is an account of another program. `update_fee_secure`
/// closes this.
pub fn update_fee_vulnerable(ctx: &mut Context<UpdateFeeVulnerable>, new_fee: u64) -> (r: Result<
    (),
    ErrorCode,
>)
    ensures
        match update_fee_vulnerable_error(*old(ctx)) {
            Some(e) => r == Err::<(), ErrorCode>(e) && *final(ctx) == *old(ctx),
            None => {
                let config = old(ctx).accounts.config@;
                &&& r is Ok
                &&& final(ctx).program_id == old(ctx).program_id
                &&& final(ctx).accounts.authority == old(ctx).accounts.authority
                &&& final(ctx).accounts.config@ == (AccountView {
                    data: config.data.take(FEE_OFFSET as int) + spec_u64_to_le_bytes(new_fee)
                        + config.data.skip(FEE_END as int),
                    ..config
                })
            },
        },
{
    match verify_signer(&ctx.accounts.authority) {
        Err(e) => {
            return Err(e);
        },
        Ok(()) => {},
    }
    if ctx.accounts.config.data.len() < FEE_OFFSET {
        return Err(ErrorCode::DeserializationFailed);
    }
    let admin = read_address(ctx.accounts.config.data.as_slice(), ADMIN_OFFSET);
    match verify_authority(&ctx.accounts.authority, &admin) {
        Err(e) => {
            proof {
                if admin@ == ctx.accounts.authority.address@ {
                    Address::lemma_view_injective(admin, ctx.accounts.authority.address);
                }
            }
            return Err(e);
        },
        Ok(()) => {},
    }
    if ctx.accounts.config.data.len() < FEE_END {
        return Err(ErrorCode::DeserializationFailed);
    }
    let bytes = u64_to_le_bytes(new_fee);
    write_at(&mut ctx.accounts.config.data, FEE_OFFSET, bytes.as_slice());
    Ok(())
}

/// Why `update_fee_secure` rejects, if it does.
pub open spec fn update_fee_secure_error(ctx: Context<UpdateFeeSecure>) -> Option<ErrorCode> {
    load_authorized_error::<AdminConfig>(
        ctx.accounts.authority@,
        ctx.accounts.config@,
        ctx.program_id,
    )
}

/// Sets the fee in the configuration, on the signature of its admin.
///
/// The account goes through the loader first, so it must be owned by this
/// program and carry the tag of `AdminConfig`. An account of another type
/// is rejected with `TypeMismatch` however its bytes are laid out.
pub fn update_fee_secure(ctx: &mut Context<UpdateFeeSecure>, new_fee: u64) -> (r: Result<
    (),
    ErrorCode,
>)
    ensures
        match update_fee_secure_error(*old(ctx)) {
            Some(e) => r == Err::<(), ErrorCode>(e) && *final(ctx) == *old(ctx),
            None => {
                let config = old(ctx).accounts.config@;
                &&& r is Ok
                &&& final(ctx).program_id == old(ctx).program_id
                &&& final(ctx).accounts.authority == old(ctx).accounts.authority
                &&& final(ctx).accounts.config@ == (AccountView {
                    data: data_with(
                        config,
                        type_tag(AdminConfig::spec_name()),
                        AdminConfig {
                            fee_basis_points: new_fee,
                            ..fields_of::<AdminConfig>(config)
                        },
                    ),
                    ..config
                })
            },
        },
{
    let mut view: TypedView<AdminConfig> = match load_authorized::<AdminConfig>(
        &ctx.accounts.authority,
        &ctx.accounts.config,
        &ctx.program_id,
    ) {
        Ok(view) => view,
        Err(e) => {
            return Err(e);
        },
    };
    let admin = view.fields().admin;
    view.set(AdminConfig { admin, fee_basis_points: new_fee });
    view.flush(&mut ctx.accounts.config)
}

/// The two types are told apart by name.
pub proof fn lemma_names_differ()
    ensures
        AdminConfig::spec_name() != UserData::spec_name(),
{
    reveal_strlit("AdminConfig");
    reveal_strlit("UserData");
    let admin: &str = "AdminConfig";
    let user: &str = "UserData";
    assert(admin@.len() == 11);
    assert(user@.len() == 8);
    is_ascii_spec_bytes(admin);
    is_ascii_spec_bytes(user);
    assert(admin.spec_bytes().len() == 11);
    assert(user.spec_bytes().len() == 8);
}

/// The two types are not told apart by their bytes: a configuration and
/// user data with the same address and the same integer have the same
/// encoding.
pub proof fn lemma_same_layout(config: AdminConfig, user: UserData)
    requires
        config.admin == user.authority,
        config.fee_basis_points == user.balance,
    ensures
        config.encoding() == user.encoding(),
{
}

/// What makes `update_fee_vulnerable` unsafe: user data of this program
/// whose authority signs is taken for the configuration, and the fee is
/// written over the user's balance.
pub proof fn lemma_cosplay_accepted(ctx: Context<UpdateFeeVulnerable>)
    requires
        load_error::<UserData>(ctx.accounts.config@, ctx.program_id) is None,
        ctx.accounts.authority.is_signer,
        ctx.accounts.authority.address == fields_of::<UserData>(ctx.accounts.config@).authority,
    ensures
        update_fee_vulnerable_error(ctx) is None,
{
    let config = ctx.accounts.config@;
    let user = fields_of::<UserData>(config);
    lemma_auto_spec_u64_to_from_le_bytes();
    assert(user.encoding() == payload::<UserData>(config));
    assert(raw_admin(config) =~= user.authority@);
}

/// What makes `update_fee_secure` safe: where both types are registered, an
/// account of this program that carries the tag of user data is rejected
/// with `TypeMismatch` on any signature, whatever its bytes are.
pub proof fn lemma_cosplay_rejected(registry: Registry, ctx: Context<UpdateFeeSecure>)
    requires
        registry.wf(),
        registry@.contains(AdminConfig::spec_name()),
        registry@.contains(UserData::spec_name()),
        ctx.accounts.config@.has_tag(type_tag(UserData::spec_name())),
        ctx.accounts.config.owner == ctx.program_id,
        ctx.accounts.authority.is_signer,
    ensures
        update_fee_secure_error(ctx) == Some(ErrorCode::TypeMismatch),
{
    lemma_names_differ();
    registry.lemma_cosplay_rejected::<AdminConfig, UserData>(ctx.accounts.config@, ctx.program_id);
}

} // verus!
