//! The inputs that the protocol knows how to assemble.

use crate::cell::DIObj;
use crate::contracts::{all_filled, filled, filling, GetInput};
use crate::key::{KeyView, Slot};
use crate::manager::DIManager;
use crate::store::Lifetime;
use vstd::prelude::*;

verus! {

/// The cell that fills the slot at a position of a shape, where the shape has
/// such a slot and the store an entry for it.
pub open spec fn slot_cell<V: Clone>(
    store: Map<KeyView, (Lifetime, DIObj<V>)>,
    keys: Seq<KeyView>,
    position: int,
) -> Option<DIObj<V>> {
    if filled(store, keys, position) {
        Some(store[keys[position]].1)
    } else {
        None
    }
}

impl<V: Clone> GetInput<V> for () {
    open spec fn resolve_spec(
        store: Map<KeyView, (Lifetime, DIObj<V>)>,
        keys: Seq<KeyView>,
        position: int,
    ) -> Option<Self> {
        Some(())
    }

    open spec fn slots() -> nat {
        0
    }

    open spec fn cells(self) -> Seq<DIObj<V>> {
        Seq::empty()
    }

    fn get_input(manager: &DIManager<V>, slots: &Vec<Slot>, key_position: usize) -> (input: Option<
        Self,
    >) {
        Some(())
    }

    proof fn resolve_is_all_or_nothing(
        store: Map<KeyView, (Lifetime, DIObj<V>)>,
        keys: Seq<KeyView>,
        position: int,
    ) {
        assert(Seq::<DIObj<V>>::empty() =~= filling(store, keys, position, 0));
    }
}

impl<V: Clone> GetInput<V> for DIObj<V> {
    open spec fn resolve_spec(
        store: Map<KeyView, (Lifetime, DIObj<V>)>,
        keys: Seq<KeyView>,
        position: int,
    ) -> Option<Self> {
        slot_cell(store, keys, position)
    }

    open spec fn slots() -> nat {
        1
    }

    open spec fn cells(self) -> Seq<DIObj<V>> {
        seq![self]
    }

    fn get_input(manager: &DIManager<V>, slots: &Vec<Slot>, key_position: usize) -> (input: Option<
        Self,
    >) {
        if key_position < slots.len() {
            manager.cell_at(&slots[key_position])
        } else {
            None
        }
    }

    proof fn resolve_is_all_or_nothing(
        store: Map<KeyView, (Lifetime, DIObj<V>)>,
        keys: Seq<KeyView>,
        position: int,
    ) {
        if all_filled(store, keys, position, 1) {
            assert(filled(store, keys, position));
        }
        if slot_cell(store, keys, position).is_some() {
            assert(seq![store[keys[position]].1] =~= filling(store, keys, position, 1));
        }
    }
}

impl<V: Clone, T: GetInput<V>> GetInput<V> for (DIObj<V>, T) {
    open spec fn resolve_spec(
        store: Map<KeyView, (Lifetime, DIObj<V>)>,
        keys: Seq<KeyView>,
        position: int,
    ) -> Option<Self> {
        match slot_cell(store, keys, position) {
            Some(head) => match T::resolve_spec(store, keys, position + 1) {
                Some(tail) => Some((head, tail)),
                None => None,
            },
            None => None,
        }
    }

    open spec fn slots() -> nat {
        1 + T::slots()
    }

    open spec fn cells(self) -> Seq<DIObj<V>> {
        seq![self.0] + self.1.cells()
    }

    fn get_input(manager: &DIManager<V>, slots: &Vec<Slot>, key_position: usize) -> (input: Option<
        Self,
    >) {
        if key_position < slots.len() {
            match manager.cell_at(&slots[key_position]) {
                Some(head) => match T::get_input(manager, slots, key_position + 1) {
                    Some(tail) => Some((head, tail)),
                    None => None,
                },
                None => None,
            }
        } else {
            None
        }
    }

    proof fn resolve_is_all_or_nothing(
        store: Map<KeyView, (Lifetime, DIObj<V>)>,
        keys: Seq<KeyView>,
        position: int,
    ) {
        T::resolve_is_all_or_nothing(store, keys, position + 1);
        let count = 1 + T::slots();
        if all_filled(store, keys, position, count) {
            assert(filled(store, keys, position));
            assert(all_filled(store, keys, position + 1, T::slots()));
        }
        if Self::resolve_spec(store, keys, position).is_some() {
            assert(all_filled(store, keys, position, count)) by {
                assert forall|i: int| position <= i < position + count implies #[trigger] filled(
                    store,
                    keys,
                    i,
                ) by {
                    if i > position {
                        assert(position + 1 <= i < position + 1 + T::slots());
                    }
                }
            }
            let input = Self::resolve_spec(store, keys, position).unwrap();
            assert(input.cells() =~= filling(store, keys, position, count)) by {
                assert(input.1.cells() == filling(store, keys, position + 1, T::slots()));
                assert forall|i: int| 0 <= i < count implies input.cells()[i] == filling(
                    store,
                    keys,
                    position,
                    count,
                )[i] by {
                    if i > 0 {
                        assert(input.cells()[i] == input.1.cells()[i - 1]);
                        assert(filling(store, keys, position + 1, T::slots())[i - 1]
                            == store[keys[position + 1 + (i - 1)]].1);
                    }
                }
            }
        }
    }
}

} // verus!
