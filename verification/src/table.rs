//! Dissection tables: which decoder reads the payload of a layer.

use vstd::prelude::*;
use std::collections::HashMap;
use std::marker::PhantomData;
use crate::error::RegistryError;
use crate::tid::{Tid, TypeTag};

verus! {

/// A discriminator that a layer reads from its header to choose the decoder
/// of its payload.
pub trait TableKey: Sized {
    /// The number under which the key is stored.
    spec fn spec_key(self) -> u64;

    /// The number under which the key is stored.
    fn key(&self) -> (k: u64)
        ensures
            k == self.spec_key(),
    ;

    /// Different keys are stored under different numbers.
    proof fn lemma_key_injective(a: Self, b: Self)
        requires
            a.spec_key() == b.spec_key(),
        ensures
            a == b,
    ;
}

impl TableKey for u8 {
    open spec fn spec_key(self) -> u64 {
        self as u64
    }

    fn key(&self) -> (k: u64) {
        *self as u64
    }

    proof fn lemma_key_injective(a: Self, b: Self) {
    }
}

impl TableKey for u16 {
    open spec fn spec_key(self) -> u64 {
        self as u64
    }

    fn key(&self) -> (k: u64) {
        *self as u64
    }

    proof fn lemma_key_injective(a: Self, b: Self) {
    }
}

impl TableKey for u32 {
    open spec fn spec_key(self) -> u64 {
        self as u64
    }

    fn key(&self) -> (k: u64) {
        *self as u64
    }

    proof fn lemma_key_injective(a: Self, b: Self) {
    }
}

impl TableKey for u64 {
    open spec fn spec_key(self) -> u64 {
        self
    }

    fn key(&self) -> (k: u64) {
        *self
    }

    proof fn lemma_key_injective(a: Self, b: Self) {
    }
}

/// The content of a dissection table.
pub struct TableView {
    /// The decoder registered under each key.
    pub entries: Map<u64, TypeTag>,
    /// Whether a payload with an unregistered key is wrapped as an opaque
    /// node.
    pub fallback: bool,
}

impl TableView {
    /// The decoder registered under `key`, if any.
    pub open spec fn lookup(self, key: u64) -> Option<TypeTag> {
        if self.entries.contains_key(key) {
            Some(self.entries[key])
        } else {
            None
        }
    }

    /// The table after an attempt to register `tag` under `key`: unchanged
    /// where the key is taken.
    pub open spec fn register(self, key: u64, tag: TypeTag) -> TableView {
        if self.entries.contains_key(key) {
            self
        } else {
            TableView { entries: self.entries.insert(key, tag), ..self }
        }
    }

    /// Whether an attempt to register under `key` succeeds.
    pub open spec fn accepts(self, key: u64) -> bool {
        !self.entries.contains_key(key)
    }

    /// The table without the entry under `key`.
    pub open spec fn remove(self, key: u64) -> TableView {
        TableView { entries: self.entries.remove(key), ..self }
    }
}

/// Registering under a key that is taken fails and changes nothing, whatever
/// decoder is offered.
pub proof fn lemma_register_twice(table: TableView, key: u64, first: TypeTag, second: TypeTag)
    ensures
        !table.register(key, first).accepts(key),
        table.register(key, first).register(key, second) == table.register(key, first),
        table.accepts(key) ==> table.register(key, first).lookup(key) == Some(first),
{
}

/// Registering under two different free keys succeeds both times, and each
/// key then leads to its own decoder.
pub proof fn lemma_register_distinct(
    table: TableView,
    key1: u64,
    tag1: TypeTag,
    key2: u64,
    tag2: TypeTag,
)
    requires
        key1 != key2,
        table.accepts(key1),
        table.accepts(key2),
    ensures
        table.register(key1, tag1).accepts(key2),
        table.register(key1, tag1).register(key2, tag2).lookup(key1) == Some(tag1),
        table.register(key1, tag1).register(key2, tag2).lookup(key2) == Some(tag2),
{
}

/// Registration touches no key but its own.
pub proof fn lemma_register_elsewhere(table: TableView, key: u64, tag: TypeTag, other: u64)
    requires
        other != key,
    ensures
        table.register(key, tag).lookup(other) == table.lookup(other),
        table.register(key, tag).fallback == table.fallback,
{
}

/// A mapping from the discriminator values of one layer to the decoders of
/// its payload.
///
/// A key is registered at most once. A table made by [`create_table`] wraps
/// the payload of an unregistered key as an opaque node.
pub struct DissectionTable<K> {
    entries: HashMap<u64, TypeTag>,
    fallback: bool,
    _key: PhantomData<K>,
}

impl<K> View for DissectionTable<K> {
    type V = TableView;

    closed spec fn view(&self) -> TableView {
        TableView { entries: self.entries@, fallback: self.fallback }
    }
}

/// An empty table with the opaque fallback installed.
pub fn create_table<K>() -> (t: DissectionTable<K>)
    ensures
        t@.entries == Map::<u64, TypeTag>::empty(),
        t@.fallback,
{
    DissectionTable { entries: HashMap::new(), fallback: true, _key: PhantomData }
}

impl<K: TableKey> DissectionTable<K> {
    /// Installs or removes the opaque fallback for unregistered keys.
    pub fn set_fallback(&mut self, fallback: bool)
        ensures
            final(self)@ == (TableView { fallback, ..old(self)@ }),
    {
        self.fallback = fallback;
    }

    /// Whether the opaque fallback is installed.
    pub fn has_fallback(&self) -> (b: bool)
        ensures
            b == self@.fallback,
    {
        self.fallback
    }

    /// The decoder registered under `value`, if any.
    pub fn lookup(&self, value: &K) -> (r: Option<TypeTag>)
        ensures
            r == self@.lookup(value.spec_key()),
    {
        let k: u64 = value.key();
        match self.entries.get(&k) {
            Some(tag) => Some(*tag),
            None => None,
        }
    }

    /// Registers the decoder of `U` under `value`, unless the key is taken.
    pub fn register<'a, U: Tid<'a>>(&mut self, value: K) -> (r: Result<(), RegistryError>)
        ensures
            final(self)@ == old(self)@.register(value.spec_key(), U::spec_id()),
            r is Ok <==> old(self)@.accepts(value.spec_key()),
            r is Err ==> r == Err::<(), RegistryError>(RegistryError::DuplicateRegistration),
    {
        let k: u64 = value.key();
        if self.entries.contains_key(&k) {
            Err(RegistryError::DuplicateRegistration)
        } else {
            self.entries.insert(k, U::id());
            Ok(())
        }
    }
}

/// Adding decoders to a table and taking them out again.
pub trait Dissect<K: TableKey>: View<V = TableView> {
    /// Registers the decoder of `U` under `value`. The key must be free.
    fn add<'a, U: Tid<'a>>(&mut self, value: K)
        requires
            old(self)@.accepts(value.spec_key()),
        ensures
            final(self)@ == old(self)@.register(value.spec_key(), U::spec_id()),
    ;

    /// Takes out the decoder registered under `value`, if there is one.
    fn remove(&mut self, value: K)
        ensures
            final(self)@ == old(self)@.remove(value.spec_key()),
    ;
}

impl<K: TableKey> Dissect<K> for DissectionTable<K> {
    fn add<'a, U: Tid<'a>>(&mut self, value: K) {
        let k: u64 = value.key();
        self.entries.insert(k, U::id());
    }

    fn remove(&mut self, value: K) {
        let k: u64 = value.key();
        self.entries.remove(&k);
    }
}

} // verus!
