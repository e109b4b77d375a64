//! The manager: builds, registers and resolves against one store.

use crate::cell::DIObj;
use crate::contracts::{declares_output, declares_shape, DIBuilder, GetInput};
use crate::key::{code_or_default, default_code, key_of, shape_keys, KeyView, Slot, TypeTag};
use crate::store::{lifetime_or_default, Lifetime, TypeMap};
use vstd::prelude::*;

verus! {

/// Whether the input of `T` can be assembled from a store, whatever shape
/// `T` declares: every slot of it has an entry.
pub open spec fn buildable<V: Clone, T: DIBuilder<Output = V>>(
    store: Map<KeyView, (Lifetime, DIObj<V>)>,
) -> bool {
    forall|keys: Seq<KeyView>| #[trigger]
        declares_shape::<T>(keys) ==> T::Input::resolve_spec(store, keys, 0).is_some()
}

/// Whether a cell holds what the construction of `T` makes from the input
/// that a store yields for a shape.
pub open spec fn constructed<V: Clone, T: DIBuilder<Output = V>>(
    store: Map<KeyView, (Lifetime, DIObj<V>)>,
    keys: Seq<KeyView>,
    cell: DIObj<V>,
) -> bool {
    match T::Input::resolve_spec(store, keys, 0) {
        Some(input) => call_ensures(T::build, (input,), cell@),
        None => false,
    }
}

/// What building `T` with a shape and an output identity does to a store and
/// returns: where the input can be assembled, a cell around a fresh
/// construction, stored as transient under the default code; else nothing,
/// and the store as it was.
pub open spec fn built_as<V: Clone, T: DIBuilder<Output = V>>(
    before: Map<KeyView, (Lifetime, DIObj<V>)>,
    after: Map<KeyView, (Lifetime, DIObj<V>)>,
    cell: Option<DIObj<V>>,
    keys: Seq<KeyView>,
    tag: TypeTag,
) -> bool {
    match cell {
        Some(cell) => constructed::<V, T>(before, keys, cell) && declares_output::<T>(tag)
            && after == before.insert((tag, default_code()), (Lifetime::Transient, cell)),
        None => T::Input::resolve_spec(before, keys, 0).is_none() && after == before,
    }
}

/// What building `T` does to a store and returns, for a shape and an output
/// identity that `T` declares.
pub open spec fn built<V: Clone, T: DIBuilder<Output = V>>(
    before: Map<KeyView, (Lifetime, DIObj<V>)>,
    after: Map<KeyView, (Lifetime, DIObj<V>)>,
    cell: Option<DIObj<V>>,
) -> bool {
    exists|keys: Seq<KeyView>, tag: TypeTag|
        declares_shape::<T>(keys) && #[trigger] built_as::<V, T>(before, after, cell, keys, tag)
}

/// What registering `T` under a key does to a store, for a shape: the entry
/// under the key is a cell around a fresh construction, with the lifetime
/// asked for, and every other entry is as it was.
pub open spec fn registered_as<V: Clone, T: DIBuilder<Output = V>>(
    before: Map<KeyView, (Lifetime, DIObj<V>)>,
    after: Map<KeyView, (Lifetime, DIObj<V>)>,
    keys: Seq<KeyView>,
    key: KeyView,
    lifetime: Lifetime,
) -> bool {
    &&& after.contains_key(key)
    &&& after[key].0 == lifetime
    &&& constructed::<V, T>(before, keys, after[key].1)
    &&& after == before.insert(key, after[key])
}

/// What registering `T` under an instance code does to a store, for a shape
/// and an output identity that `T` declares.
pub open spec fn registered<V: Clone, T: DIBuilder<Output = V>>(
    before: Map<KeyView, (Lifetime, DIObj<V>)>,
    after: Map<KeyView, (Lifetime, DIObj<V>)>,
    code: Seq<char>,
    lifetime: Lifetime,
) -> bool {
    exists|keys: Seq<KeyView>, tag: TypeTag|
        declares_shape::<T>(keys) && declares_output::<T>(tag) && #[trigger] registered_as::<V, T>(
            before,
            after,
            keys,
            (tag, code),
            lifetime,
        )
}

/// What resolving `T` by a key does to a store and returns: without an entry
/// under the key, nothing; for a singleton, a new cell around a copy of the
/// stored value, the store as it was; for a transient, what `build` does.
pub open spec fn resolved_at<V: Clone, T: DIBuilder<Output = V>>(
    before: Map<KeyView, (Lifetime, DIObj<V>)>,
    after: Map<KeyView, (Lifetime, DIObj<V>)>,
    cell: Option<DIObj<V>>,
    key: KeyView,
) -> bool {
    if !before.contains_key(key) {
        cell.is_none() && after == before
    } else if before[key].0 == Lifetime::Singleton {
        after == before && match cell {
            Some(cell) => cloned(before[key].1@, cell@),
            None => false,
        }
    } else {
        built::<V, T>(before, after, cell)
    }
}

/// What resolving `T` by an instance code does to a store and returns, for
/// an output identity that `T` declares.
pub open spec fn resolved<V: Clone, T: DIBuilder<Output = V>>(
    before: Map<KeyView, (Lifetime, DIObj<V>)>,
    after: Map<KeyView, (Lifetime, DIObj<V>)>,
    cell: Option<DIObj<V>>,
    code: Seq<char>,
) -> bool {
    exists|tag: TypeTag|
        declares_output::<T>(tag) && #[trigger] resolved_at::<V, T>(
            before,
            after,
            cell,
            (tag, code),
        )
}

/// What resolving a type under a key comes to.
pub enum Resolution<V: Clone> {
    /// There is no entry: nothing is handed out.
    Absent,
    /// The entry is a singleton: a new cell around a copy of its value.
    Stored(DIObj<V>),
    /// The entry is a transient: the type is to be built anew.
    Rebuild,
}

/// The manager of the instances of one application, all of them held as
/// cells around values of the representation `V`.
pub struct DIManager<V: Clone> {
    store: TypeMap<DIObj<V>>,
}

impl<V: Clone> Default for DIManager<V> {
    fn default() -> (manager: Self)
        ensures
            manager.wf(),
            manager@ == Map::<KeyView, (Lifetime, DIObj<V>)>::empty(),
    {
        DIManager { store: TypeMap::default() }
    }
}

impl<V: Clone> DIManager<V> {
    /// The store is well formed.
    pub closed spec fn wf(&self) -> bool {
        self.store.wf()
    }

    /// The entries that the manager holds, by key.
    pub closed spec fn view(&self) -> Map<KeyView, (Lifetime, DIObj<V>)> {
        self.store@
    }

    /// A handle to the cell that fills a slot, if the manager holds one.
    pub fn cell_at(&self, slot: &Slot) -> (cell: Option<DIObj<V>>)
        requires
            self.wf(),
        ensures
            cell == (if self@.contains_key(slot@) {
                Some(self@[slot@].1)
            } else {
                None
            }),
    {
        let code = match &slot.code {
            Some(code) => Some(code.clone()),
            None => None,
        };
        match self.store.get(slot.tag, code) {
            Some(cell) => Some(cell.clone()),
            None => None,
        }
    }

    /// Assembles the input of `T` from what the manager holds: all of its
    /// slots, or nothing.
    pub fn gather<T: DIBuilder<Output = V>>(&self) -> (input: Option<T::Input>)
        requires
            self.wf(),
        ensures
            exists|keys: Seq<KeyView>|
                declares_shape::<T>(keys) && input == #[trigger] T::Input::resolve_spec(
                    self@,
                    keys,
                    0,
                ),
    {
        let slots = T::input_shape();
        assert(declares_shape::<T>(shape_keys(slots@)));
        T::Input::get_input(self, &slots, 0)
    }

    /// Wraps a constructed value in a new cell and stores the cell under its
    /// type and instance code, in place of what stood there.
    pub fn install(
        &mut self,
        tag: TypeTag,
        value: V,
        lifetime: Option<Lifetime>,
        key: Option<String>,
    ) -> (cell: DIObj<V>)
        requires
            old(self).wf(),
        ensures
            final(self).wf(),
            cell@ == value,
            final(self)@ == old(self)@.insert(
                key_of(tag, key),
                (lifetime_or_default(lifetime), cell),
            ),
    {
        let cell = DIObj::new(value);
        self.store.set(tag, cell.clone(), lifetime, key);
        cell
    }

    /// Builds `T` anew from what the manager holds and stores it as
    /// transient under the default code; without its dependencies, does
    /// nothing and returns `None`.
    pub fn build<T: DIBuilder<Output = V>>(&mut self) -> (cell: Option<DIObj<V>>)
        requires
            old(self).wf(),
        ensures
            final(self).wf(),
            built::<V, T>(old(self)@, final(self)@, cell),
    {
        let slots = T::input_shape();
        let ghost keys = shape_keys(slots@);
        assert(declares_shape::<T>(keys));
        match T::Input::get_input(self, &slots, 0) {
            Some(input) => {
                let output = T::build(input);
                let tag = T::output_type();
                let cell = self.install(tag, output, Some(Lifetime::Transient), None);
                assert(built_as::<V, T>(old(self)@, self@, Some(cell), keys, tag));
                Some(cell)
            },
            None => {
                assert(built_as::<V, T>(old(self)@, self@, None, keys, TypeTag(0)));
                None
            },
        }
    }

    /// Builds `T`, wraps it and stores it under an instance code with a
    /// lifetime. Its dependencies must be there.
    fn place<T: DIBuilder<Output = V>>(&mut self, lifetime: Option<Lifetime>, key: Option<String>)
        requires
            old(self).wf(),
            buildable::<V, T>(old(self)@),
        ensures
            final(self).wf(),
            registered::<V, T>(
                old(self)@,
                final(self)@,
                code_or_default(key),
                lifetime_or_default(lifetime),
            ),
    {
        let slots = T::input_shape();
        let ghost keys = shape_keys(slots@);
        assert(declares_shape::<T>(keys));
        match T::Input::get_input(self, &slots, 0) {
            Some(input) => {
                let output = T::build(input);
                let tag = T::output_type();
                self.install(tag, output, lifetime, key);
                assert(registered_as::<V, T>(
                    old(self)@,
                    self@,
                    keys,
                    (tag, code_or_default(key)),
                    lifetime_or_default(lifetime),
                ));
            },
            None => unreached(),
        }
    }

    /// Builds `T` and stores it under the default code with the lifetime
    /// asked for, transient where none is given. Its dependencies must be
    /// there: to register without them is an error of the caller.
    pub fn register<T: DIBuilder<Output = V>>(&mut self, lifetime: Option<Lifetime>) -> (manager:
        &mut Self)
        requires
            old(self).wf(),
            buildable::<V, T>(old(self)@),
        ensures
            manager.wf(),
            registered::<V, T>(
                old(self)@,
                manager@,
                default_code(),
                lifetime_or_default(lifetime),
            ),
            *final(self) == *final(manager),
    {
        self.place::<T>(lifetime, None);
        self
    }

    /// Builds `T` and stores it under an instance code with the lifetime
    /// asked for, transient where none is given. Its dependencies must be
    /// there: to register without them is an error of the caller.
    pub fn register_with_key<T: DIBuilder<Output = V>>(
        &mut self,
        lifetime: Option<Lifetime>,
        key: String,
    ) -> (manager: &mut Self)
        requires
            old(self).wf(),
            buildable::<V, T>(old(self)@),
        ensures
            manager.wf(),
            registered::<V, T>(old(self)@, manager@, key@, lifetime_or_default(lifetime)),
            *final(self) == *final(manager),
    {
        self.place::<T>(lifetime, Some(key));
        self
    }

    /// Hands out the instance of `T` under the default code as its lifetime
    /// says: a singleton as a new cell around a copy of the stored value, a
    /// transient by building it anew, and nothing where there is no entry.
    /// It is meant for types that were registered; an entry that `build`
    /// left is a transient like any other.
    pub fn resolve<T: DIBuilder<Output = V>>(&mut self) -> (cell: Option<DIObj<V>>)
        requires
            old(self).wf(),
        ensures
            final(self).wf(),
            resolved::<V, T>(old(self)@, final(self)@, cell, default_code()),
    {
        let tag = T::output_type();
        let cell = match self.resolution(tag, None) {
            Resolution::Rebuild => self.build::<T>(),
            Resolution::Stored(cell) => Some(cell),
            Resolution::Absent => None,
        };
        assert(resolved_at::<V, T>(old(self)@, self@, cell, (tag, default_code())));
        cell
    }

    /// Hands out the instance of `T` under an instance code as its lifetime
    /// says. A transient is built anew, and the new instance is stored as
    /// `build` stores it: under the default code.
    pub fn resolve_with_key<T: DIBuilder<Output = V>>(&mut self, key: String) -> (cell: Option<
        DIObj<V>,
    >)
        requires
            old(self).wf(),
        ensures
            final(self).wf(),
            resolved::<V, T>(old(self)@, final(self)@, cell, key@),
    {
        let tag = T::output_type();
        let cell = match self.resolution(tag, Some(key)) {
            Resolution::Rebuild => self.build::<T>(),
            Resolution::Stored(cell) => Some(cell),
            Resolution::Absent => None,
        };
        assert(resolved_at::<V, T>(old(self)@, self@, cell, (tag, key@)));
        cell
    }

    /// Decides what resolving a type under an instance code comes to, by the
    /// lifetime of its entry, and makes the copy where a singleton is
    /// stored. The store is not changed.
    pub fn resolution(&self, tag: TypeTag, key: Option<String>) -> (resolution: Resolution<V>)
        requires
            self.wf(),
        ensures
            match resolution {
                Resolution::Absent => !self@.contains_key(key_of(tag, key)),
                Resolution::Stored(cell) => self@.contains_key(key_of(tag, key)) && self@[key_of(
                    tag,
                    key,
                )].0 == Lifetime::Singleton && cloned(self@[key_of(tag, key)].1@, cell@),
                Resolution::Rebuild => self@.contains_key(key_of(tag, key)) && self@[key_of(
                    tag,
                    key,
                )].0 == Lifetime::Transient,
            },
    {
        let code = match &key {
            Some(key) => Some(key.clone()),
            None => None,
        };
        match self.store.get_lifetime(tag, code) {
            Some(Lifetime::Transient) => Resolution::Rebuild,
            Some(Lifetime::Singleton) => match self.store.get(tag, key) {
                Some(stored) => Resolution::Stored(DIObj::new(stored.extract())),
                None => unreached(),
            },
            None => Resolution::Absent,
        }
    }

    /// Whether the manager holds an instance of a type under the default
    /// code.
    pub fn has(&self, tag: TypeTag) -> (present: bool)
        requires
            self.wf(),
        ensures
            present == self@.contains_key((tag, default_code())),
    {
        self.store.has(tag, None)
    }

    /// Whether the manager holds an instance of a type under an instance
    /// code.
    pub fn has_with_key(&self, tag: TypeTag, key: String) -> (present: bool)
        requires
            self.wf(),
        ensures
            present == self@.contains_key((tag, key@)),
    {
        self.store.has(tag, Some(key))
    }
}

} // verus!
