use vstd::prelude::*;
use vstd::bytes::{lemma_auto_spec_u64_to_from_le_bytes, spec_u64_to_le_bytes};
use vstd::string::StringSliceAdditionalSpecFns;
use crate::account::{Account, AccountView};
use crate::address::Address;
use crate::context::Context;
use crate::discriminator::type_tag;
pub use crate::error::ErrorCode;
use crate::layout::{
    read_address, read_bool, read_u64, spec_bool_to_byte, write_address, write_bool, write_u64,
    AccountData,
};
use crate::loader::{data_with, fields_of, has_room, lemma_fields_of_written, load_error, store, TypedView};
use crate::pipeline::{blank_error, check_blank, load_signed, load_signed_error};
use crate::verify::{guard_first_use, InitFlag};

verus! {

/// A configuration that is set up once: its authority, the flag that
/// records the setup, and the funds it tracks.
#[derive(Clone, Copy, Debug, PartialEq, Eq)]
pub struct Config {
    pub authority: Address,
    pub is_initialized: bool,
    pub vault_balance: u64,
}

impl AccountData for Config {
    open spec fn spec_name() -> Seq<u8> {
        "Config".spec_bytes()
    }

    open spec fn spec_size() -> nat {
        41
    }

    open spec fn encoding(&self) -> Seq<u8> {
        self.authority@ + seq![spec_bool_to_byte(self.is_initialized)] + spec_u64_to_le_bytes(
            self.vault_balance,
        )
    }

    fn name() -> (n: &'static str) {
        "Config"
    }

    fn size() -> (n: usize) {
        41
    }

    fn encode(&self) -> (bytes: Vec<u8>) {
        let mut bytes: Vec<u8> = Vec::new();
        write_address(&mut bytes, &self.authority);
        write_bool(&mut bytes, self.is_initialized);
        write_u64(&mut bytes, self.vault_balance);
        assert(bytes@ =~= self.encoding());
        bytes
    }

    fn decode(bytes: &[u8]) -> (r: Option<Config>) {
        if bytes.len() != 41 {
            proof {
                assert forall|v: Config| #[trigger] v.encoding() != bytes@ by {
                    v.lemma_encoding_len();
                }
            }
            return None;
        }
        let is_initialized = match read_bool(bytes, 32) {
            Some(b) => b,
            None => {
                proof {
                    assert forall|v: Config| #[trigger] v.encoding() != bytes@ by {
                        v.lemma_encoding_len();
                        assert(v.encoding()[32] == spec_bool_to_byte(v.is_initialized));
                    }
                }
                return None;
            },
        };
        let v = Config {
            authority: read_address(bytes, 0),
            is_initialized,
            vault_balance: read_u64(bytes, 33),
        };
        proof {
            lemma_auto_spec_u64_to_from_le_bytes();
            assert(v.encoding() =~= bytes@);
        }
        Some(v)
    }

    proof fn lemma_encoding_len(&self) {
        lemma_auto_spec_u64_to_from_le_bytes();
    }

    proof fn lemma_encoding_injective(&self, other: &Config) {
        lemma_auto_spec_u64_to_from_le_bytes();
        let e = self.encoding();
        assert(self.authority@ =~= e.subrange(0, 32));
        assert(other.authority@ =~= e.subrange(0, 32));
        Address::lemma_view_injective(self.authority, other.authority);
        assert(spec_bool_to_byte(self.is_initialized) == e[32]);
        assert(spec_bool_to_byte(other.is_initialized) == e[32]);
        assert(spec_u64_to_le_bytes(self.vault_balance) =~= e.subrange(33, 41));
        assert(spec_u64_to_le_bytes(other.vault_balance) =~= e.subrange(33, 41));
    }
}

/// A configuration counts as initialized once its flag is set.
impl InitFlag for Config {
    open spec fn is_initialized(&self) -> bool {
        self.is_initialized
    }

    fn initialized(&self) -> (b: bool) {
        self.is_initialized
    }
}

/// The accounts of `init_vulnerable`.
#[derive(Debug)]
pub struct InitVulnerable {
    pub config: Account,
    pub authority: Account,
}

/// The accounts of `init_secure`.
#[derive(Debug)]
pub struct InitSecure {
    pub config: Account,
    pub authority: Account,
}

/// The accounts of `init_anchor_native`. The configuration is a blank
/// account that the runtime has just created.
#[derive(Debug)]
pub struct InitAnchorNative {
    pub config: Account,
    pub authority: Account,
}

/// The fields every setup routine writes: the authority takes over, the
/// flag is set, and the tracked funds start at zero.
pub open spec fn fresh_config(authority: Address) -> Config {
    Config { authority, is_initialized: true, vault_balance: 0 }
}

/// The configuration account after setup by `authority`.
pub open spec fn config_set_up(config: AccountView, authority: Address) -> AccountView {
    AccountView {
        data: data_with(config, type_tag(Config::spec_name()), fresh_config(authority)),
        ..config
    }
}

/// Sets up the configuration without asking whether that was done before.
///
/// Whoever signs becomes the authority, also of a configuration that
/// already has one. `init_secure` closes this.
pub fn init_vulnerable(ctx: &mut Context<InitVulnerable>) -> (r: Result<(), ErrorCode>)
    ensures
        match load_signed_error::<Config>(
            old(ctx).accounts.authority@,
            old(ctx).accounts.config@,
            old(ctx).program_id,
        ) {
            Some(e) => r == Err::<(), ErrorCode>(e) && *final(ctx) == *old(ctx),
            None => {
                &&& r is Ok
                &&& final(ctx).program_id == old(ctx).program_id
                &&& final(ctx).accounts.authority == old(ctx).accounts.authority
                &&& final(ctx).accounts.config@ == config_set_up(
                    old(ctx).accounts.config@,
                    old(ctx).accounts.authority.address,
                )
            },
        },
{
    let mut view: TypedView<Config> = match load_signed::<Config>(
        &ctx.accounts.authority,
        &ctx.accounts.config,
        &ctx.program_id,
    ) {
        Ok(view) => view,
        Err(e) => {
            return Err(e);
        },
    };
    view.set(
        Config { authority: ctx.accounts.authority.address, is_initialized: true, vault_balance: 0 },
    );
    view.flush(&mut ctx.accounts.config)
}

/// Why `init_secure` rejects a configuration account for an authority, if it
/// does.
pub open spec fn init_secure_error(
    config: AccountView,
    authority: AccountView,
    program_id: Address,
) -> Option<ErrorCode> {
    if load_signed_error::<Config>(authority, config, program_id) is Some {
        load_signed_error::<Config>(authority, config, program_id)
    } else if fields_of::<Config>(config).is_initialized {
        Some(ErrorCode::AlreadyInitialized)
    } else {
        None
    }
}

/// Sets up the configuration if that was never done before.
///
/// The guard and the setting of the flag are one step: either the call
/// fails and nothing changes, or the configuration is set up and its flag
/// is set.
pub fn init_secure(ctx: &mut Context<InitSecure>) -> (r: Result<(), ErrorCode>)
    ensures
        match init_secure_error(
            old(ctx).accounts.config@,
            old(ctx).accounts.authority@,
            old(ctx).program_id,
        ) {
            Some(e) => r == Err::<(), ErrorCode>(e) && *final(ctx) == *old(ctx),
            None => {
                &&& r is Ok
                &&& final(ctx).program_id == old(ctx).program_id
                &&& final(ctx).accounts.authority == old(ctx).accounts.authority
                &&& final(ctx).accounts.config@ == config_set_up(
                    old(ctx).accounts.config@,
                    old(ctx).accounts.authority.address,
                )
            },
        },
        final(ctx).accounts.config@ == after_init_secure(
            old(ctx).accounts.config@,
            old(ctx).accounts.authority@,
            old(ctx).program_id,
        ),
{
    let mut view: TypedView<Config> = match load_signed::<Config>(
        &ctx.accounts.authority,
        &ctx.accounts.config,
        &ctx.program_id,
    ) {
        Ok(view) => view,
        Err(e) => {
            return Err(e);
        },
    };
    match guard_first_use(view.fields()) {
        Err(e) => {
            return Err(e);
        },
        Ok(()) => {},
    }
    view.set(
        Config { authority: ctx.accounts.authority.address, is_initialized: true, vault_balance: 0 },
    );
    view.flush(&mut ctx.accounts.config)
}

/// Why `init_anchor_native` rejects, if it does.
pub open spec fn init_anchor_native_error(ctx: Context<InitAnchorNative>) -> Option<ErrorCode> {
    let config = ctx.accounts.config@;
    if blank_error(ctx.accounts.authority@, config, ctx.program_id) is Some {
        blank_error(ctx.accounts.authority@, config, ctx.program_id)
    } else if !has_room::<Config>(config) {
        Some(ErrorCode::DeserializationFailed)
    } else {
        None
    }
}

/// Sets up the configuration in a blank account.
///
/// What guards against a second setup here is the type tag: it is written
/// with the fields, and an account that carries one is not blank.
pub fn init_anchor_native(ctx: &mut Context<InitAnchorNative>) -> (r: Result<(), ErrorCode>)
    ensures
        match init_anchor_native_error(*old(ctx)) {
            Some(e) => r == Err::<(), ErrorCode>(e) && *final(ctx) == *old(ctx),
            None => {
                &&& r is Ok
                &&& final(ctx).program_id == old(ctx).program_id
                &&& final(ctx).accounts.authority == old(ctx).accounts.authority
                &&& final(ctx).accounts.config@ == config_set_up(
                    old(ctx).accounts.config@,
                    old(ctx).accounts.authority.address,
                )
            },
        },
{
    match check_blank(&ctx.accounts.authority, &ctx.accounts.config, &ctx.program_id) {
        Err(e) => {
            return Err(e);
        },
        Ok(()) => {},
    }
    let fields = Config {
        authority: ctx.accounts.authority.address,
        is_initialized: true,
        vault_balance: 0,
    };
    store(&mut ctx.accounts.config, &fields)
}

/// What makes `init_vulnerable` unsafe: after a setup that succeeded, any
/// signer can set the configuration up again and become its authority.
pub proof fn lemma_takeover(
    config: AccountView,
    first: AccountView,
    second: AccountView,
    program_id: Address,
)
    requires
        load_signed_error::<Config>(first, config, program_id) is None,
        second.is_signer,
    ensures
        load_signed_error::<Config>(second, config_set_up(config, first.address), program_id)
            is None,
        fields_of::<Config>(
            config_set_up(config_set_up(config, first.address), second.address),
        ).authority == second.address,
{
    let once = config_set_up(config, first.address);
    lemma_fields_of_written::<Config>(
        config,
        type_tag(Config::spec_name()),
        fresh_config(first.address),
    );
    lemma_fields_of_written::<Config>(
        once,
        type_tag(Config::spec_name()),
        fresh_config(second.address),
    );
}

/// The configuration account after one call of `init_secure` for
/// `authority`: set up where the call succeeds, unchanged where it fails.
pub open spec fn after_init_secure(
    config: AccountView,
    authority: AccountView,
    program_id: Address,
) -> AccountView {
    if init_secure_error(config, authority, program_id) is None {
        config_set_up(config, authority.address)
    } else {
        config
    }
}

/// The configuration account after `init_secure` was called once for each
/// of `authorities`, in their order.
pub open spec fn after_calls(
    config: AccountView,
    authorities: Seq<AccountView>,
    program_id: Address,
) -> AccountView
    decreases authorities.len(),
{
    if authorities.len() == 0 {
        config
    } else {
        after_init_secure(
            after_calls(config, authorities.drop_last(), program_id),
            authorities.last(),
            program_id,
        )
    }
}

/// Why call number `i` of such a run is rejected, if it is.
pub open spec fn call_error(
    config: AccountView,
    authorities: Seq<AccountView>,
    program_id: Address,
    i: int,
) -> Option<ErrorCode> {
    init_secure_error(
        after_calls(config, authorities.take(i), program_id),
        authorities[i],
        program_id,
    )
}

/// Whether a configuration account of this program carries its tag and a
/// set flag.
pub open spec fn is_set_up(config: AccountView, program_id: Address) -> bool {
    &&& load_error::<Config>(config, program_id) is None
    &&& fields_of::<Config>(config).is_initialized
}

/// A call that succeeds leaves the configuration set up.
pub proof fn lemma_init_secure_sets_up(
    config: AccountView,
    authority: AccountView,
    program_id: Address,
)
    requires
        init_secure_error(config, authority, program_id) is None,
    ensures
        is_set_up(after_init_secure(config, authority, program_id), program_id),
{
    lemma_fields_of_written::<Config>(
        config,
        type_tag(Config::spec_name()),
        fresh_config(authority.address),
    );
}

/// On a configuration that is set up every call fails and changes nothing.
/// The guard is what stops a signer, with `AlreadyInitialized`.
pub proof fn lemma_set_up_is_terminal(
    config: AccountView,
    authority: AccountView,
    program_id: Address,
)
    requires
        is_set_up(config, program_id),
    ensures
        init_secure_error(config, authority, program_id) == Some(
            if authority.is_signer {
                ErrorCode::AlreadyInitialized
            } else {
                ErrorCode::Unauthorized
            },
        ),
        after_init_secure(config, authority, program_id) == config,
{
}

/// One-time setup succeeds at most once per account, whatever calls are
/// made and by whom: once a call of a run has succeeded, every later call
/// of the run fails, a signer's with `AlreadyInitialized`.
pub proof fn lemma_init_secure_once(
    config: AccountView,
    authorities: Seq<AccountView>,
    program_id: Address,
    i: int,
    j: int,
)
    requires
        0 <= i < j < authorities.len(),
        call_error(config, authorities, program_id, i) is None,
    ensures
        is_set_up(after_calls(config, authorities.take(j), program_id), program_id),
        call_error(config, authorities, program_id, j) == Some(
            if authorities[j].is_signer {
                ErrorCode::AlreadyInitialized
            } else {
                ErrorCode::Unauthorized
            },
        ),
    decreases j,
{
    let before = after_calls(config, authorities.take(j - 1), program_id);
    assert(authorities.take(j).drop_last() =~= authorities.take(j - 1));
    assert(authorities.take(j).last() == authorities[j - 1]);
    if j == i + 1 {
        lemma_init_secure_sets_up(before, authorities[i], program_id);
    } else {
        lemma_init_secure_once(config, authorities, program_id, i, j - 1);
        lemma_set_up_is_terminal(before, authorities[j - 1], program_id);
    }
    lemma_set_up_is_terminal(
        after_calls(config, authorities.take(j), program_id),
        authorities[j],
        program_id,
    );
}

} // verus!
