//! The key under which an attribute is stored and looked up.

use vstd::prelude::*;
use crate::object::Object;

verus! {

/// A fixed string that names an attribute.
pub type Literal = &'static str;

/// An attribute key as callers give it: a fixed string literal, or any
/// object.
#[derive(Debug, Clone, Copy)]
pub enum Key {
    /// A name known when the runtime was built, such as `"+"` or `"@text"`.
    Literal(Literal),
    /// An object used as a key.
    Object(Object),
}

/// What a key stands for once it is resolved against the store: a text
/// object and a literal with the same characters are one key, any other
/// object is a key by its identity.
pub enum KeyId {
    /// The key with this name.
    Name(Seq<char>),
    /// The object with this identity.
    Identity(int),
}

/// A key as an attribute table holds it.
#[derive(Debug, Clone)]
pub enum StoredKey {
    /// A name, with characters of its own.
    Name(String),
    /// An object, by identity.
    Identity(Object),
}

impl View for StoredKey {
    type V = KeyId;

    open spec fn view(&self) -> KeyId {
        match self {
            StoredKey::Name(s) => KeyId::Name(s@),
            StoredKey::Identity(o) => KeyId::Identity(o.id as int),
        }
    }
}

impl StoredKey {
    /// Whether two stored keys are the same key.
    pub fn same(&self, other: &StoredKey) -> (b: bool)
        ensures
            b == (self@ == other@),
    {
        match (self, other) {
            (StoredKey::Name(a), StoredKey::Name(b)) => *a == *b,
            (StoredKey::Identity(a), StoredKey::Identity(b)) => a.is_identical(*b),
            _ => false,
        }
    }

    /// A copy of the key.
    pub fn duplicate(&self) -> (k: StoredKey)
        ensures
            k@ == self@,
    {
        match self {
            StoredKey::Name(s) => StoredKey::Name(s.clone()),
            StoredKey::Identity(o) => StoredKey::Identity(*o),
        }
    }
}

/// The keys that stand in a list of stored keys.
pub open spec fn key_set(keys: Seq<StoredKey>) -> Set<KeyId> {
    Set::new(|k: KeyId| exists|i: int| 0 <= i < keys.len() && (#[trigger] keys[i])@ == k)
}

/// No key stands twice in the list.
pub open spec fn distinct_keys(keys: Seq<StoredKey>) -> bool {
    forall|i: int, j: int| 0 <= i < j < keys.len() ==> (#[trigger] keys[i])@ != (#[trigger] keys[j])@
}

/// Puts `key` at the end of the list unless it stands in it.
pub fn add_key(acc: &mut Vec<StoredKey>, key: &StoredKey)
    requires
        distinct_keys(old(acc)@),
    ensures
        distinct_keys(final(acc)@),
        key_set(final(acc)@) == key_set(old(acc)@).insert(key@),
        final(acc)@.len() >= old(acc)@.len(),
        forall|i: int| 0 <= i < old(acc)@.len() ==> (#[trigger] final(acc)@[i])@ == old(acc)@[i]@,
{
    let mut i: usize = 0;
    while i < acc.len()
        invariant
            i <= acc.len(),
            acc@ == old(acc)@,
            distinct_keys(acc@),
            forall|j: int| 0 <= j < i ==> (#[trigger] acc@[j])@ != key@,
        decreases acc.len() - i,
    {
        if acc[i].same(key) {
            assert(key_set(acc@).contains(key@));
            assert(key_set(acc@) =~= key_set(acc@).insert(key@));
            return ;
        }
        i += 1;
    }
    let ghost before = acc@;
    let copy = key.duplicate();
    acc.push(copy);
    proof {
        assert forall|a: int, b: int| 0 <= a < b < acc@.len() implies (#[trigger] acc@[a])@ != (
        #[trigger] acc@[b])@ by {
            assert(acc@[a] == before[a]);
            if b < before.len() {
                assert(acc@[b] == before[b]);
            }
        }
        assert forall|k: KeyId| key_set(acc@).contains(k) <==> key_set(before).insert(
            key@,
        ).contains(k) by {
            if key_set(acc@).contains(k) {
                let w = choose|w: int| 0 <= w < acc@.len() && (#[trigger] acc@[w])@ == k;
                if w < before.len() {
                    assert(before[w]@ == k);
                }
            }
            if key_set(before).contains(k) {
                let w = choose|w: int| 0 <= w < before.len() && (#[trigger] before[w])@ == k;
                assert(acc@[w]@ == k);
            }
            if k == key@ {
                assert(acc@[before.len() as int]@ == k);
            }
        }
        assert(key_set(acc@) =~= key_set(before).insert(key@));
    }
}

} // verus!
