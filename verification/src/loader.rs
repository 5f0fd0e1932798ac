use vstd::prelude::*;
use vstd::slice::slice_subrange;
use crate::account::{Account, AccountView, DISCRIMINATOR_LEN};
use crate::address::Address;
use crate::buffer::write_at;
use crate::discriminator::{discriminator_of, type_tag};
use crate::error::ErrorCode;
use crate::layout::{decodable, AccountData};
use crate::verify::{verify_discriminator, verify_owner};

verus! {

/// A typed reading of one account: the trust domain that owns it, the tag
/// found at the start of its data, and the fields decoded from the bytes
/// after the tag.
///
/// Only `load` makes one, so a view exists only for an account that passed
/// the owner and tag checks.
pub struct TypedView<T: AccountData> {
    trust_domain: Address,
    discriminator: [u8; 8],
    fields: T,
}

/// What a typed view holds, as plain values.
pub struct TypedViewModel<T> {
    pub trust_domain: Address,
    pub discriminator: Seq<u8>,
    pub fields: T,
}

impl<T: AccountData> View for TypedView<T> {
    type V = TypedViewModel<T>;

    closed spec fn view(&self) -> TypedViewModel<T> {
        TypedViewModel {
            trust_domain: self.trust_domain,
            discriminator: self.discriminator@,
            fields: self.fields,
        }
    }
}

/// The bytes of `account` in which the fields of a `T` stand.
pub open spec fn payload<T: AccountData>(account: AccountView) -> Seq<u8> {
    account.data.subrange(DISCRIMINATOR_LEN as int, DISCRIMINATOR_LEN + T::spec_size())
}

/// Whether the data of `account` is long enough for the tag and a `T`.
pub open spec fn has_room<T: AccountData>(account: AccountView) -> bool {
    account.data.len() >= DISCRIMINATOR_LEN + T::spec_size()
}

/// The data of `account` with the tag area set to `tag` and the field area
/// set to the encoding of `fields`. Bytes behind the fields stay.
pub open spec fn data_with<T: AccountData>(account: AccountView, tag: Seq<u8>, fields: T) -> Seq<
    u8,
> {
    tag + fields.encoding() + account.data.skip(DISCRIMINATOR_LEN + T::spec_size())
}

/// The fields that the bytes of `account` stand for, where they decode.
pub open spec fn fields_of<T: AccountData>(account: AccountView) -> T {
    choose|v: T| #[trigger] v.encoding() == payload::<T>(account)
}

/// The view that `load::<T>` makes of an account it accepts.
pub open spec fn loaded<T: AccountData>(account: AccountView, trust_domain: Address) -> TypedViewModel<
    T,
> {
    TypedViewModel {
        trust_domain,
        discriminator: type_tag(T::spec_name()),
        fields: fields_of::<T>(account),
    }
}

/// Why `load::<T>` rejects `account`, if it does. The checks run in this
/// order: owner, type tag, layout.
pub open spec fn load_error<T: AccountData>(
    account: AccountView,
    expected_trust_domain: Address,
) -> Option<ErrorCode> {
    if account.owner != expected_trust_domain {
        Some(ErrorCode::OwnershipMismatch)
    } else if !account.has_tag(type_tag(T::spec_name())) {
        Some(ErrorCode::TypeMismatch)
    } else if !has_room::<T>(account) || !decodable::<T>(payload::<T>(account)) {
        Some(ErrorCode::DeserializationFailed)
    } else {
        None
    }
}

/// Why flushing a view with the given contents into `account` is rejected,
/// if it is.
pub open spec fn flush_error<T: AccountData>(view: TypedViewModel<T>, account: AccountView) -> Option<
    ErrorCode,
> {
    if account.owner != view.trust_domain {
        Some(ErrorCode::OwnershipMismatch)
    } else if !account.has_tag(view.discriminator) {
        Some(ErrorCode::TypeMismatch)
    } else if !has_room::<T>(account) {
        Some(ErrorCode::DeserializationFailed)
    } else {
        None
    }
}

/// The single safe way to read account bytes as a `T`.
///
/// Checks that the account is owned by the expected trust domain, then that
/// its data starts with the type tag of `T`, then decodes the bytes after
/// the tag. Bytes behind the fields are ignored.
pub fn load<T: AccountData>(account: &Account, expected_trust_domain: &Address) -> (r: Result<
    TypedView<T>,
    ErrorCode,
>)
    ensures
        match r {
            Ok(view) => {
                &&& load_error::<T>(account@, *expected_trust_domain) is None
                &&& view@ == loaded::<T>(account@, *expected_trust_domain)
            },
            Err(e) => load_error::<T>(account@, *expected_trust_domain) == Some(e),
        },
        account.owner != *expected_trust_domain ==> r is Err && r->Err_0
            == ErrorCode::OwnershipMismatch,
{
    match verify_owner(account, expected_trust_domain) {
        Err(e) => {
            return Err(e);
        },
        Ok(()) => {},
    }
    let tag = discriminator_of(T::name());
    match verify_discriminator(account, &tag) {
        Err(e) => {
            return Err(e);
        },
        Ok(()) => {},
    }
    let size = T::size();
    if account.data.len() - DISCRIMINATOR_LEN < size {
        return Err(ErrorCode::DeserializationFailed);
    }
    let bytes = slice_subrange(account.data.as_slice(), DISCRIMINATOR_LEN, DISCRIMINATOR_LEN + size);
    match T::decode(bytes) {
        Some(fields) => {
            proof {
                lemma_fields_of::<T>(account@, fields);
            }
            Ok(TypedView { trust_domain: *expected_trust_domain, discriminator: tag, fields })
        },
        None => Err(ErrorCode::DeserializationFailed),
    }
}

/// The bytes of an account decode to at most one value: whatever encodes to
/// them is the value that `fields_of` names.
pub proof fn lemma_fields_of<T: AccountData>(account: AccountView, fields: T)
    requires
        fields.encoding() == payload::<T>(account),
    ensures
        fields_of::<T>(account) == fields,
        decodable::<T>(payload::<T>(account)),
{
    let chosen = fields_of::<T>(account);
    chosen.lemma_encoding_injective(&fields);
}

/// Fields written over an account's data are the fields read from it
/// afterwards, under any tag.
pub proof fn lemma_fields_of_written<T: AccountData>(account: AccountView, tag: Seq<u8>, fields: T)
    requires
        has_room::<T>(account),
        tag.len() == DISCRIMINATOR_LEN,
    ensures
        ({
            let after = AccountView { data: data_with(account, tag, fields), ..account };
            &&& after.data.len() == account.data.len()
            &&& after.tag() == tag
            &&& payload::<T>(after) == fields.encoding()
            &&& fields_of::<T>(after) == fields
        }),
{
    let after = AccountView { data: data_with(account, tag, fields), ..account };
    fields.lemma_encoding_len();
    assert(after.tag() =~= tag);
    assert(payload::<T>(after) =~= fields.encoding());
    lemma_fields_of::<T>(after, fields);
}

/// Writes the type tag of `T` and the encoding of `fields` to the start of
/// the account data.
///
/// Nothing is checked but the room: this is the raw writer under one-time
/// setup, where no tag stands yet.
pub fn store<T: AccountData>(account: &mut Account, fields: &T) -> (r: Result<(), ErrorCode>)
    ensures
        r is Ok <==> has_room::<T>(old(account)@),
        r is Err ==> r == Err::<(), ErrorCode>(ErrorCode::DeserializationFailed) && *final(account)
            == *old(account),
        r is Ok ==> final(account)@ == (AccountView {
            data: data_with(old(account)@, type_tag(T::spec_name()), *fields),
            ..old(account)@
        }),
{
    let size = T::size();
    if account.data.len() < DISCRIMINATOR_LEN || account.data.len() - DISCRIMINATOR_LEN < size {
        return Err(ErrorCode::DeserializationFailed);
    }
    let tag = discriminator_of(T::name());
    let bytes = fields.encode();
    proof {
        fields.lemma_encoding_len();
    }
    write_at(&mut account.data, 0, tag.as_slice());
    write_at(&mut account.data, DISCRIMINATOR_LEN, bytes.as_slice());
    assert(account.data@ =~= data_with(old(account)@, type_tag(T::spec_name()), *fields));
    Ok(())
}

impl<T: AccountData> TypedView<T> {
    /// A view always carries the tag of its type.
    #[verifier::type_invariant]
    spec fn carries_own_tag(&self) -> bool {
        self.discriminator@ == type_tag(T::spec_name())
    }

    /// The decoded fields.
    pub fn fields(&self) -> (f: &T)
        ensures
            *f == self@.fields,
    {
        &self.fields
    }

    /// The tag that was found on the account, which is the tag of `T`.
    pub fn discriminator(&self) -> (tag: [u8; 8])
        ensures
            tag@ == self@.discriminator,
            tag@ == type_tag(T::spec_name()),
    {
        proof {
            use_type_invariant(self);
        }
        self.discriminator
    }

    /// The trust domain that owns the account.
    pub fn trust_domain(&self) -> (td: Address)
        ensures
            td == self@.trust_domain,
    {
        self.trust_domain
    }

    /// Replaces the fields in memory. The account changes only on `flush`.
    pub fn set(&mut self, fields: T)
        ensures
            final(self)@ == (TypedViewModel { fields, ..old(self)@ }),
    {
        proof {
            use_type_invariant(&*self);
        }
        self.fields = fields;
    }

    /// Writes the fields back into the account.
    ///
    /// The account is checked again for owner and tag, so a flush goes only
    /// into an account of the view's trust domain and type, never changes
    /// the tag at the start of the data, and writes only the field area.
    pub fn flush(&self, account: &mut Account) -> (r: Result<(), ErrorCode>)
        ensures
            match flush_error(self@, old(account)@) {
                Some(e) => r == Err::<(), ErrorCode>(e) && *final(account) == *old(account),
                None => r is Ok && final(account)@ == (AccountView {
                    data: data_with(old(account)@, self@.discriminator, self@.fields),
                    ..old(account)@
                }),
            },
    {
        match verify_owner(account, &self.trust_domain) {
            Err(e) => {
                return Err(e);
            },
            Ok(()) => {},
        }
        match verify_discriminator(account, &self.discriminator) {
            Err(e) => {
                return Err(e);
            },
            Ok(()) => {},
        }
        let size = T::size();
        if account.data.len() - DISCRIMINATOR_LEN < size {
            return Err(ErrorCode::DeserializationFailed);
        }
        let bytes = self.fields.encode();
        proof {
            self.fields.lemma_encoding_len();
        }
        write_at(&mut account.data, DISCRIMINATOR_LEN, bytes.as_slice());
        assert(account.data@ =~= data_with(old(account)@, self@.discriminator, self@.fields));
        Ok(())
    }
}

} // verus!
