//! Entry keys: a type identity together with an instance code.

use vstd::prelude::*;

verus! {

/// The identity of a type, as a plain number that the application assigns:
/// two values are of one type exactly if their tags are equal.
#[derive(Debug, Clone, Copy, PartialEq, Eq, Hash, Structural)]
pub struct TypeTag(pub u64);

/// What a key is in contracts: the type identity and the characters of the
/// instance code.
pub type KeyView = (TypeTag, Seq<char>);

/// The instance code of an entry that was stored without one.
pub open spec fn default_code() -> Seq<char> {
    "default"@
}

/// The instance code that an optional code stands for.
pub open spec fn code_or_default(code: Option<String>) -> Seq<char> {
    match code {
        Some(code) => code@,
        None => default_code(),
    }
}

/// The key under which a type is found for an optional instance code.
pub open spec fn key_of(tag: TypeTag, code: Option<String>) -> KeyView {
    (tag, code_or_default(code))
}

/// The key of one entry: which type, and which of its instances.
#[derive(Debug)]
pub struct Key {
    pub tag: TypeTag,
    pub code: String,
}

impl Key {
    pub open spec fn view(&self) -> KeyView {
        (self.tag, self.code@)
    }

    pub fn new(tag: TypeTag, code: String) -> (key: Self)
        ensures
            key@ == (tag, code@),
    {
        Key { tag, code }
    }

    pub fn new_with_default_code(tag: TypeTag) -> (key: Self)
        ensures
            key@ == (tag, default_code()),
    {
        Key::new(tag, "default".to_owned())
    }

    /// Whether two keys name the same entry.
    pub fn same_as(&self, other: &Key) -> (same: bool)
        ensures
            same == (self@ == other@),
    {
        self.tag == other.tag && self.code == other.code
    }
}

/// One dependency slot of a declared input shape: the type of the dependency
/// and, where the declaring type names one, the instance code to take it from.
#[derive(Debug)]
pub struct Slot {
    pub tag: TypeTag,
    pub code: Option<String>,
}

impl Slot {
    /// The key of the entry that fills this slot.
    pub open spec fn view(&self) -> KeyView {
        key_of(self.tag, self.code)
    }

    pub fn new(tag: TypeTag) -> (slot: Self)
        ensures
            slot@ == (tag, default_code()),
    {
        Slot { tag, code: None }
    }

    pub fn with_key(tag: TypeTag, code: String) -> (slot: Self)
        ensures
            slot@ == (tag, code@),
    {
        Slot { tag, code: Some(code) }
    }
}

/// The keys that the slots of a shape name, in order.
pub open spec fn shape_keys(slots: Seq<Slot>) -> Seq<KeyView> {
    Seq::new(slots.len(), |i: int| slots[i]@)
}

} // verus!
