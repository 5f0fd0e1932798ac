use vstd::prelude::*;
use vstd::slice::slice_to_vec;
use vstd::string::StringSliceAdditionalSpecFns;
use crate::account::{Account, AccountView};
use crate::address::Address;
use crate::buffer::same_bytes;
use crate::discriminator::{discriminator_of, type_tag};
use crate::error::ErrorCode;
use crate::layout::AccountData;
use crate::loader::{load, load_error, loaded, TypedView};
use crate::verify::verify_owner;

verus! {

/// The type names of a program, each with its tag.
///
/// A registry is built once, from the full list of names, and only read
/// after that: it has no operation that changes it. It cannot be built from
/// names of which two have the same tag, so among registered types the tag
/// alone tells which type an account holds.
pub struct Registry {
    names: Vec<Vec<u8>>,
    tags: Vec<[u8; 8]>,
}

impl View for Registry {
    type V = Seq<Seq<u8>>;

    /// The registered names, each once, in the order they were given.
    closed spec fn view(&self) -> Seq<Seq<u8>> {
        entry_names(self.names@)
    }
}

/// The names of a list of entries as byte strings.
spec fn entry_names(names: Seq<Vec<u8>>) -> Seq<Seq<u8>> {
    Seq::new(names.len(), |i: int| names[i]@)
}

/// Whether names and tags make up a registry: every name with its own tag,
/// and no two names with the same tag.
spec fn entries_wf(names: Seq<Vec<u8>>, tags: Seq<[u8; 8]>) -> bool {
    &&& names.len() == tags.len()
    &&& forall|i: int| 0 <= i < names.len() ==> (#[trigger] tags[i])@ == type_tag(names[i]@)
    &&& forall|i: int, j: int|
        0 <= i < names.len() && 0 <= j < names.len() && i != j ==> type_tag(
            #[trigger] entry_names(names)[i],
        ) != type_tag(#[trigger] entry_names(names)[j])
}

/// The names as byte strings.
pub open spec fn names_view(names: Seq<&str>) -> Seq<Seq<u8>> {
    Seq::new(names.len(), |i: int| names[i].spec_bytes())
}

/// Whether the tag of `name` is also the tag of another name in `names`.
pub open spec fn collides(names: Seq<Seq<u8>>, name: Seq<u8>) -> bool {
    exists|i: int|
        0 <= i < names.len() && names[i] != name && type_tag(#[trigger] names[i]) == type_tag(name)
}

/// Whether two different names in `names` have the same tag.
pub open spec fn has_collision(names: Seq<Seq<u8>>) -> bool {
    exists|i: int| 0 <= i < names.len() && collides(names, #[trigger] names[i])
}

/// Whether `name` is among the first `n` of `names`.
spec fn listed(names: Seq<Seq<u8>>, n: int, name: Seq<u8>) -> bool {
    exists|j: int| 0 <= j < n && j < names.len() && #[trigger] names[j] == name
}

/// One more name is listed when one more of the names counts.
proof fn lemma_listed_step(names: Seq<Seq<u8>>, n: int, name: Seq<u8>)
    requires
        0 <= n < names.len(),
    ensures
        listed(names, n + 1, name) <==> listed(names, n, name) || names[n] == name,
{
    if listed(names, n + 1, name) {
        let j = choose|j: int| 0 <= j < n + 1 && j < names.len() && #[trigger] names[j] == name;
        if j < n {
            assert(listed(names, n, name));
        }
    }
    if listed(names, n, name) {
        let j = choose|j: int| 0 <= j < n && j < names.len() && #[trigger] names[j] == name;
        assert(names[j] == name);
    }
    if names[n] == name {
        assert(listed(names, n + 1, name));
    }
}

/// A sequence with one more element holds what it held, and that element.
proof fn lemma_push_contains(s: Seq<Seq<u8>>, x: Seq<u8>, name: Seq<u8>)
    ensures
        s.push(x).contains(name) <==> s.contains(name) || x == name,
{
    if s.push(x).contains(name) {
        let j = choose|j: int| 0 <= j < s.push(x).len() && s.push(x)[j] == name;
        if j < s.len() {
            assert(s[j] == name);
        }
    }
    if s.contains(name) {
        let j = choose|j: int| 0 <= j < s.len() && s[j] == name;
        assert(s.push(x)[j] == name);
    }
    if x == name {
        assert(s.push(x)[s.len() as int] == name);
    }
}

/// Adds a name to the entries, unless it is there already or its tag is
/// taken by another name.
fn insert(names: &mut Vec<Vec<u8>>, tags: &mut Vec<[u8; 8]>, name: &str) -> (r: Result<
    (),
    ErrorCode,
>)
    requires
        entries_wf(old(names)@, old(tags)@),
    ensures
        entries_wf(final(names)@, final(tags)@),
        match r {
            Ok(()) => {
                &&& !collides(entry_names(old(names)@), name.spec_bytes())
                &&& entry_names(final(names)@) == if entry_names(old(names)@).contains(
                    name.spec_bytes(),
                ) {
                    entry_names(old(names)@)
                } else {
                    entry_names(old(names)@).push(name.spec_bytes())
                }
            },
            Err(e) => {
                &&& e == ErrorCode::TypeMismatch
                &&& collides(entry_names(old(names)@), name.spec_bytes())
                &&& entry_names(final(names)@) == entry_names(old(names)@)
            },
        },
{
    let tag = discriminator_of(name);
    let bytes = name.as_bytes();
    let ghost held = entry_names(names@);
    let mut known = false;
    let mut i: usize = 0;
    while i < names.len()
        invariant
            i <= names@.len(),
            entries_wf(names@, tags@),
            names@ == old(names)@,
            tags@ == old(tags)@,
            held == entry_names(names@),
            bytes@ == name.spec_bytes(),
            tag@ == type_tag(bytes@),
            known <==> exists|j: int| 0 <= j < i && #[trigger] held[j] == bytes@,
            forall|j: int| 0 <= j < i && held[j] != bytes@ ==> type_tag(#[trigger] held[j]) != tag@,
        decreases names@.len() - i,
    {
        if same_bytes(names[i].as_slice(), bytes) {
            assert(held[i as int] == bytes@);
            known = true;
        } else {
            let mut differs = false;
            let mut k: usize = 0;
            while k < 8
                invariant
                    k <= 8,
                    i < names@.len() == tags@.len(),
                    differs <==> exists|j: int| 0 <= j < k && tags@[i as int][j] != tag[j],
                decreases 8 - k,
            {
                if tags[i][k] != tag[k] {
                    differs = true;
                }
                k += 1;
            }
            if !differs {
                assert(tags@[i as int]@ =~= tag@);
                assert(held[i as int] != bytes@);
                return Err(ErrorCode::TypeMismatch);
            }
        }
        i += 1;
    }
    if !known {
        names.push(slice_to_vec(bytes));
        tags.push(tag);
        assert(entry_names(names@) =~= held.push(bytes@));
    }
    Ok(())
}

impl Registry {
    /// Whether the registry holds what it promises: every name once and
    /// with its own tag, and no two names with the same tag.
    pub closed spec fn wf(&self) -> bool {
        entries_wf(self.names@, self.tags@)
    }

    #[verifier::type_invariant]
    spec fn always_wf(&self) -> bool {
        self.wf()
    }

    /// Builds the registry of the given type names.
    ///
    /// Fails with `TypeMismatch` exactly when two different names in the
    /// list have the same tag: accounts of the two types could then not be
    /// told apart. A name may stand in the list more than once.
    pub fn new(names: &[&str]) -> (r: Result<Registry, ErrorCode>)
        ensures
            match r {
                Ok(registry) => {
                    &&& registry.wf()
                    &&& !has_collision(names_view(names@))
                    &&& forall|name: Seq<u8>|
                        registry@.contains(name) <==> names_view(names@).contains(name)
                },
                Err(e) => e == ErrorCode::TypeMismatch && has_collision(names_view(names@)),
            },
    {
        let mut held: Vec<Vec<u8>> = Vec::new();
        let mut tags: Vec<[u8; 8]> = Vec::new();
        let ghost all = names_view(names@);
        let mut i: usize = 0;
        while i < names.len()
            invariant
                i <= names@.len(),
                all == names_view(names@),
                entries_wf(held@, tags@),
                forall|name: Seq<u8>|
                    entry_names(held@).contains(name) <==> listed(all, i as int, name),
            decreases names@.len() - i,
        {
            let ghost before = entry_names(held@);
            match insert(&mut held, &mut tags, names[i]) {
                Ok(()) => {},
                Err(e) => {
                    proof {
                        let k = choose|k: int|
                            0 <= k < before.len() && before[k] != all[i as int] && type_tag(
                                #[trigger] before[k],
                            ) == type_tag(all[i as int]);
                        assert(before.contains(before[k]));
                        assert(listed(all, i as int, before[k]));
                        assert(collides(all, all[i as int]));
                    }
                    return Err(e);
                },
            }
            proof {
                assert forall|name: Seq<u8>| entry_names(held@).contains(name) <==> listed(
                    all,
                    i + 1,
                    name,
                ) by {
                    lemma_listed_step(all, i as int, name);
                    lemma_push_contains(before, all[i as int], name);
                }
            }
            i += 1;
        }
        let registry = Registry { names: held, tags };
        proof {
            assert forall|name: Seq<u8>| registry@.contains(name) <==> all.contains(name) by {
                if listed(all, i as int, name) {
                    let j = choose|j: int|
                        0 <= j < i && j < all.len() && #[trigger] all[j] == name;
                    assert(all[j] == name);
                }
                if all.contains(name) {
                    let j = choose|j: int| 0 <= j < all.len() && all[j] == name;
                    assert(all[j] == name);
                    assert(listed(all, i as int, name));
                }
            }
            if has_collision(all) {
                let a = choose|a: int| 0 <= a < all.len() && collides(all, #[trigger] all[a]);
                let b = choose|b: int|
                    0 <= b < all.len() && all[b] != all[a] && type_tag(#[trigger] all[b])
                        == type_tag(all[a]);
                assert(listed(all, i as int, all[a]));
                assert(listed(all, i as int, all[b]));
                registry.lemma_tags_differ(all[a], all[b]);
            }
        }
        Ok(registry)
    }

    /// The tag of a registered name, or `None` for a name that is not
    /// registered.
    pub fn discriminator(&self, name: &str) -> (r: Option<[u8; 8]>)
        ensures
            r is Some <==> self@.contains(name.spec_bytes()),
            r matches Some(tag) ==> tag@ == type_tag(name.spec_bytes()),
    {
        proof {
            use_type_invariant(self);
        }
        let bytes = name.as_bytes();
        let mut i: usize = 0;
        while i < self.names.len()
            invariant
                i <= self.names@.len(),
                self.wf(),
                bytes@ == name.spec_bytes(),
                forall|j: int| 0 <= j < i ==> self@[j] != bytes@,
            decreases self.names@.len() - i,
        {
            if same_bytes(self.names[i].as_slice(), bytes) {
                assert(self@[i as int] == bytes@);
                return Some(self.tags[i]);
            }
            i += 1;
        }
        None
    }

    /// Why loading `account` as a `T` through this registry is rejected, if
    /// it is: a type that is not registered matches no account.
    pub open spec fn load_error<T: AccountData>(
        &self,
        account: AccountView,
        expected_trust_domain: Address,
    ) -> Option<ErrorCode> {
        if account.owner != expected_trust_domain {
            Some(ErrorCode::OwnershipMismatch)
        } else if !self@.contains(T::spec_name()) {
            Some(ErrorCode::TypeMismatch)
        } else {
            load_error::<T>(account, expected_trust_domain)
        }
    }

    /// Loads an account as a registered type.
    ///
    /// The checks are those of the loader, in its order. The type must be
    /// registered: one that is not is refused like a wrong tag.
    pub fn load<T: AccountData>(&self, account: &Account, expected_trust_domain: &Address) -> (r:
        Result<TypedView<T>, ErrorCode>)
        ensures
            match r {
                Ok(view) => {
                    &&& self.load_error::<T>(account@, *expected_trust_domain) is None
                    &&& view@ == loaded::<T>(account@, *expected_trust_domain)
                },
                Err(e) => self.load_error::<T>(account@, *expected_trust_domain) == Some(e),
            },
    {
        match verify_owner(account, expected_trust_domain) {
            Err(e) => {
                return Err(e);
            },
            Ok(()) => {},
        }
        if self.discriminator(T::name()).is_none() {
            return Err(ErrorCode::TypeMismatch);
        }
        load::<T>(account, expected_trust_domain)
    }

    /// Two different registered names have different tags.
    pub proof fn lemma_tags_differ(&self, a: Seq<u8>, b: Seq<u8>)
        requires
            self.wf(),
            self@.contains(a),
            self@.contains(b),
            a != b,
        ensures
            type_tag(a) != type_tag(b),
    {
        let i = choose|i: int| 0 <= i < self@.len() && self@[i] == a;
        let j = choose|j: int| 0 <= j < self@.len() && self@[j] == b;
        assert(type_tag(self@[i]) != type_tag(self@[j]));
    }

    /// No account passes for a registered type while it carries the tag of
    /// another: in the trust domain that owns it, loading it as `A` fails
    /// with `TypeMismatch`, however well its bytes fit the layout of `A`.
    pub proof fn lemma_cosplay_rejected<A: AccountData, B: AccountData>(
        &self,
        account: AccountView,
        trust_domain: Address,
    )
        requires
            self.wf(),
            self@.contains(A::spec_name()),
            self@.contains(B::spec_name()),
            A::spec_name() != B::spec_name(),
            account.has_tag(type_tag(B::spec_name())),
            account.owner == trust_domain,
        ensures
            load_error::<A>(account, trust_domain) == Some(ErrorCode::TypeMismatch),
            self.load_error::<A>(account, trust_domain) == Some(ErrorCode::TypeMismatch),
    {
        self.lemma_tags_differ(A::spec_name(), B::spec_name());
    }
}

} // verus!
