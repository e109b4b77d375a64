//! What holds of the registry as a whole, proved from the contracts of its
//! operations.

use crate::cell::DIObj;
use crate::contracts::{
    all_filled, declares_shape, filling, DIBuilder, GetInput,
};
use crate::key::{KeyView, TypeTag};
use crate::manager::{
    buildable, built, built_as, constructed, registered_as, resolved_at,
};
use crate::store::Lifetime;
use vstd::prelude::*;

verus! {

/// A type without dependencies can be registered on any store, and building
/// it never fails: it returns a cell, which by what `built` says is a fresh
/// construction stored as transient under the default code.
pub proof fn law_leaf_is_always_built<V: Clone, T: DIBuilder<Output = V>>(
    before: Map<KeyView, (Lifetime, DIObj<V>)>,
    after: Map<KeyView, (Lifetime, DIObj<V>)>,
    cell: Option<DIObj<V>>,
)
    requires
        T::Input::slots() == 0,
    ensures
        buildable::<V, T>(before),
        built::<V, T>(before, after, cell) ==> cell.is_some(),
{
    assert forall|keys: Seq<KeyView>| #[trigger] declares_shape::<T>(keys) implies T::Input::resolve_spec(
        before,
        keys,
        0,
    ).is_some() by {
        T::Input::resolve_is_all_or_nothing(before, keys, 0);
    }
}

/// An input of any form is assembled exactly where every one of its slots
/// has an entry, and then holds the cells of those entries in the order of
/// the slots: one missing dependency fails the whole input.
pub proof fn law_input_is_all_or_nothing<V: Clone, I: GetInput<V>>(
    store: Map<KeyView, (Lifetime, DIObj<V>)>,
    keys: Seq<KeyView>,
    position: int,
)
    ensures
        I::resolve_spec(store, keys, position).is_some() <==> all_filled(
            store,
            keys,
            position,
            I::slots(),
        ),
        I::resolve_spec(store, keys, position).is_some() ==> I::resolve_spec(
            store,
            keys,
            position,
        ).unwrap().cells() == filling(store, keys, position, I::slots()),
{
    I::resolve_is_all_or_nothing(store, keys, position);
}

/// Building a type of which some declared dependency was never stored
/// returns nothing and leaves the store as it was; such a type cannot be
/// registered.
pub proof fn law_missing_dependency_fails_build<V: Clone, T: DIBuilder<Output = V>>(
    before: Map<KeyView, (Lifetime, DIObj<V>)>,
    after: Map<KeyView, (Lifetime, DIObj<V>)>,
    cell: Option<DIObj<V>>,
)
    requires
        forall|keys: Seq<KeyView>| #[trigger]
            declares_shape::<T>(keys) ==> !all_filled(before, keys, 0, T::Input::slots()),
        built::<V, T>(before, after, cell),
    ensures
        cell.is_none(),
        after == before,
        !buildable::<V, T>(before),
{
    let (keys, tag) = choose|keys: Seq<KeyView>, tag: TypeTag|
        declares_shape::<T>(keys) && #[trigger] built_as::<V, T>(before, after, cell, keys, tag);
    T::Input::resolve_is_all_or_nothing(before, keys, 0);
    assert(T::Input::resolve_spec(before, keys, 0).is_none());
}

/// Resolving a type that has no entry under the key returns nothing and
/// leaves the store as it was.
pub proof fn law_unregistered_resolves_to_nothing<V: Clone, T: DIBuilder<Output = V>>(
    before: Map<KeyView, (Lifetime, DIObj<V>)>,
    after: Map<KeyView, (Lifetime, DIObj<V>)>,
    cell: Option<DIObj<V>>,
    key: KeyView,
)
    requires
        !before.contains_key(key),
        resolved_at::<V, T>(before, after, cell, key),
    ensures
        cell.is_none(),
        after == before,
{
}

/// Resolving a transient is building: each call constructs anew from the
/// dependencies as they stand, and stores the new instance as `build` does.
pub proof fn law_transient_resolve_builds_anew<V: Clone, T: DIBuilder<Output = V>>(
    before: Map<KeyView, (Lifetime, DIObj<V>)>,
    after: Map<KeyView, (Lifetime, DIObj<V>)>,
    cell: Option<DIObj<V>>,
    key: KeyView,
)
    requires
        before.contains_key(key),
        before[key].0 == Lifetime::Transient,
        resolved_at::<V, T>(before, after, cell, key),
    ensures
        built::<V, T>(before, after, cell),
{
}

/// Two successive resolves of a singleton leave the store as it was, and
/// both return a copy of the one stored value: nothing is constructed.
pub proof fn law_singleton_resolves_agree<V: Clone, T: DIBuilder<Output = V>>(
    before: Map<KeyView, (Lifetime, DIObj<V>)>,
    between: Map<KeyView, (Lifetime, DIObj<V>)>,
    after: Map<KeyView, (Lifetime, DIObj<V>)>,
    first: Option<DIObj<V>>,
    second: Option<DIObj<V>>,
    key: KeyView,
)
    requires
        before.contains_key(key),
        before[key].0 == Lifetime::Singleton,
        resolved_at::<V, T>(before, between, first, key),
        resolved_at::<V, T>(between, after, second, key),
    ensures
        between == before,
        after == before,
        first.is_some(),
        second.is_some(),
        cloned(before[key].1@, first.unwrap()@),
        cloned(before[key].1@, second.unwrap()@),
{
}

/// Two registrations of one type under different instance codes stand side
/// by side: the second leaves the first's entry as it was. Resolved by its
/// own code, a singleton is a copy of the instance registered under that
/// code, never of the other, and a transient is built anew.
pub proof fn law_keyed_instances_are_isolated<V: Clone, T: DIBuilder<Output = V>>(
    start: Map<KeyView, (Lifetime, DIObj<V>)>,
    one: Map<KeyView, (Lifetime, DIObj<V>)>,
    both: Map<KeyView, (Lifetime, DIObj<V>)>,
    first_shape: Seq<KeyView>,
    second_shape: Seq<KeyView>,
    tag: TypeTag,
    first_code: Seq<char>,
    second_code: Seq<char>,
    first_lifetime: Lifetime,
    second_lifetime: Lifetime,
    after_first: Map<KeyView, (Lifetime, DIObj<V>)>,
    first_cell: Option<DIObj<V>>,
    after_second: Map<KeyView, (Lifetime, DIObj<V>)>,
    second_cell: Option<DIObj<V>>,
)
    requires
        first_code != second_code,
        registered_as::<V, T>(start, one, first_shape, (tag, first_code), first_lifetime),
        registered_as::<V, T>(one, both, second_shape, (tag, second_code), second_lifetime),
        resolved_at::<V, T>(both, after_first, first_cell, (tag, first_code)),
        resolved_at::<V, T>(both, after_second, second_cell, (tag, second_code)),
    ensures
        both.contains_key((tag, first_code)),
        both.contains_key((tag, second_code)),
        both[(tag, first_code)] == one[(tag, first_code)],
        constructed::<V, T>(start, first_shape, both[(tag, first_code)].1),
        constructed::<V, T>(one, second_shape, both[(tag, second_code)].1),
        first_lifetime == Lifetime::Singleton ==> after_first == both && first_cell.is_some()
            && cloned(one[(tag, first_code)].1@, first_cell.unwrap()@),
        second_lifetime == Lifetime::Singleton ==> after_second == both && second_cell.is_some()
            && cloned(both[(tag, second_code)].1@, second_cell.unwrap()@),
        first_lifetime == Lifetime::Transient ==> built::<V, T>(both, after_first, first_cell),
        second_lifetime == Lifetime::Transient ==> built::<V, T>(both, after_second, second_cell),
{
}

/// Two registrations under different keys, neither of which reads the
/// other's entry, give the same store in either order: the end state of one
/// order is reached in the other order with the same two cells, and holds
/// both entries.
pub proof fn law_independent_registrations_commute<
    V: Clone,
    A: DIBuilder<Output = V>,
    B: DIBuilder<Output = V>,
>(
    start: Map<KeyView, (Lifetime, DIObj<V>)>,
    first: Map<KeyView, (Lifetime, DIObj<V>)>,
    end: Map<KeyView, (Lifetime, DIObj<V>)>,
    a_shape: Seq<KeyView>,
    b_shape: Seq<KeyView>,
    a_key: KeyView,
    b_key: KeyView,
    a_lifetime: Lifetime,
    b_lifetime: Lifetime,
)
    requires
        a_key != b_key,
        registered_as::<V, A>(start, first, a_shape, a_key, a_lifetime),
        registered_as::<V, B>(first, end, b_shape, b_key, b_lifetime),
        B::Input::resolve_spec(first, b_shape, 0) == B::Input::resolve_spec(start, b_shape, 0),
        A::Input::resolve_spec(start.insert(b_key, end[b_key]), a_shape, 0) == A::Input::resolve_spec(
            start,
            a_shape,
            0,
        ),
    ensures
        end.contains_key(a_key),
        end.contains_key(b_key),
        end[a_key] == first[a_key],
        registered_as::<V, B>(start, start.insert(b_key, end[b_key]), b_shape, b_key, b_lifetime),
        registered_as::<V, A>(start.insert(b_key, end[b_key]), end, a_shape, a_key, a_lifetime),
{
    let other = start.insert(b_key, end[b_key]);
    assert(end =~= other.insert(a_key, end[a_key]));
}

/// The input of a type without dependencies reads no entry, so it is
/// independent of every registration.
pub proof fn law_leaf_input_reads_nothing<V: Clone>(
    first: Map<KeyView, (Lifetime, DIObj<V>)>,
    second: Map<KeyView, (Lifetime, DIObj<V>)>,
    keys: Seq<KeyView>,
)
    ensures
        <() as GetInput<V>>::resolve_spec(first, keys, 0) == <() as GetInput<V>>::resolve_spec(
            second,
            keys,
            0,
        ),
{
}

/// Every extraction from a cell is a copy of the one value that the cell was
/// made with: what a holder does to its own copy reaches neither the cell
/// nor any other copy.
pub proof fn law_extractions_are_copies<T: Clone>(cell: DIObj<T>, earlier: T, later: T)
    requires
        call_ensures(DIObj::<T>::extract, (&cell,), earlier),
        call_ensures(DIObj::<T>::extract, (&cell,), later),
    ensures
        cloned(cell@, earlier),
        cloned(cell@, later),
{
}

} // verus!
