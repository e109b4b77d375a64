//! What a buildable type declares: the shape of its input, the identity of
//! its output, and how the output is made from the input.

use crate::cell::DIObj;
use crate::key::{shape_keys, KeyView, Slot, TypeTag};
use crate::manager::DIManager;
use crate::store::Lifetime;
use vstd::prelude::*;

verus! {

/// An input that can be assembled from what a manager holds.
///
/// A shape is a list of keys, one for each dependency slot; an input takes
/// its slots from a position of that list onwards. It is implemented for
/// `()`, the input of a type without dependencies, for `DIObj<V>`, one slot,
/// and for the pair of a `DIObj<V>` and a further input, which takes the slot
/// at the position and assembles the rest from the next position on.
pub trait GetInput<V: Clone>: Sized {
    /// The input that a store yields for a shape from a position onwards, or
    /// `None` where one of its slots has no entry.
    spec fn resolve_spec(
        store: Map<KeyView, (Lifetime, DIObj<V>)>,
        keys: Seq<KeyView>,
        position: int,
    ) -> Option<Self>;

    /// The number of slots that the input takes.
    spec fn slots() -> nat;

    /// The cells of an input, in the order of its slots.
    spec fn cells(self) -> Seq<DIObj<V>>;

    /// Assembles the input from what the manager holds, taking the slots of
    /// the shape from `key_position` onwards.
    fn get_input(manager: &DIManager<V>, slots: &Vec<Slot>, key_position: usize) -> (input: Option<
        Self,
    >)
        requires
            manager.wf(),
        ensures
            input == Self::resolve_spec(manager@, shape_keys(slots@), key_position as int),
    ;

    /// An input is assembled exactly where each of its slots lies within the
    /// shape and has an entry; its cells are then the cells of those
    /// entries, slot by slot.
    proof fn resolve_is_all_or_nothing(
        store: Map<KeyView, (Lifetime, DIObj<V>)>,
        keys: Seq<KeyView>,
        position: int,
    )
        ensures
            Self::resolve_spec(store, keys, position).is_some() <==> all_filled(
                store,
                keys,
                position,
                Self::slots(),
            ),
            Self::resolve_spec(store, keys, position).is_some() ==> Self::resolve_spec(
                store,
                keys,
                position,
            ).unwrap().cells() == filling(store, keys, position, Self::slots()),
    ;
}

/// Whether a position lies within the shape and the slot there has an entry
/// in the store.
pub open spec fn filled<V>(store: Map<KeyView, (Lifetime, V)>, keys: Seq<KeyView>, i: int) -> bool {
    0 <= i < keys.len() && store.contains_key(keys[i])
}

/// Whether each of the `count` slots from a position onwards has an entry in
/// the store.
pub open spec fn all_filled<V>(
    store: Map<KeyView, (Lifetime, V)>,
    keys: Seq<KeyView>,
    position: int,
    count: nat,
) -> bool {
    forall|i: int| position <= i < position + count ==> #[trigger] filled(store, keys, i)
}

/// The stored values that fill the `count` slots from a position onwards.
pub open spec fn filling<V>(
    store: Map<KeyView, (Lifetime, V)>,
    keys: Seq<KeyView>,
    position: int,
    count: nat,
) -> Seq<V> {
    Seq::new(count, |i: int| store[keys[position + i]].1)
}

/// A type that a manager can build.
///
/// The trait promises nothing of its methods: an implementation states what
/// its own return, and the manager's contracts speak of whatever a call
/// returned.
pub trait DIBuilder {
    /// The dependencies, as cells, that the construction takes.
    type Input: GetInput<Self::Output>;

    /// What the construction makes.
    type Output: Clone;

    /// The identity under which the output is stored.
    fn output_type() -> TypeTag;

    /// The dependency slots, in order.
    fn input_shape() -> Vec<Slot>;

    /// Makes the output from an assembled input.
    fn build(input: Self::Input) -> Self::Output;
}

/// Whether a call of `T::output_type` may return this identity.
pub open spec fn declares_output<T: DIBuilder>(tag: TypeTag) -> bool {
    call_ensures(T::output_type, (), tag)
}

/// Whether a call of `T::input_shape` may return slots with these keys.
pub open spec fn declares_shape<T: DIBuilder>(keys: Seq<KeyView>) -> bool {
    exists|slots: Vec<Slot>| #[trigger]
        call_ensures(T::input_shape, (), slots) && shape_keys(slots@) == keys
}

} // verus!
