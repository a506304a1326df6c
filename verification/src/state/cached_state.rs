//! One isolated execution scope: a reader and the cache layered over it.

use crate::contract_class::ContractClass;
use crate::errors::StateError;
use crate::felt::{Address, ClassHash, Felt, StorageEntry};
use crate::state::state_api::StateReader;
use crate::state::state_cache::{StateCache, StateCacheView};
use crate::vec_map::VecMap;
use vstd::prelude::*;

verus! {

/// Reading the class hash at `address` through `cache`, where `fetched` is
/// what the reader would answer: the cache after the read, and the result.
pub open spec fn read_class_hash(cache: StateCacheView, address: Address, fetched: Option<ClassHash>) -> (
    StateCacheView,
    Result<ClassHash, StateError>,
) {
    match cache.get_class_hash(address) {
        Some(cached) => (cache, Ok(cached)),
        None => match fetched {
            Some(value) => (cache.record_class_hash_initial(address, value), Ok(value)),
            None => (cache, Err(StateError::NotDeployed(address))),
        },
    }
}

/// Reading the nonce at `address` through `cache`, where `fetched` is what
/// the reader would answer.
pub open spec fn read_nonce(cache: StateCacheView, address: Address, fetched: Felt) -> (StateCacheView, Felt) {
    match cache.get_nonce(address) {
        Some(cached) => (cache, cached),
        None => (cache.record_nonce_initial(address, fetched), fetched),
    }
}

/// Reading the cell `entry` through `cache`, where `fetched` is what the
/// reader would answer.
pub open spec fn read_storage(cache: StateCacheView, entry: StorageEntry, fetched: Felt) -> (
    StateCacheView,
    Felt,
) {
    match cache.get_storage(entry) {
        Some(cached) => (cache, cached),
        None => (cache.record_storage_initial(entry, fetched), fetched),
    }
}

/// What a lookup of the class under `class_hash` yields, where `fetched` is
/// what the reader answered: the class, or `ClassNotFound`.
pub open spec fn class_lookup(class_hash: ClassHash, fetched: Option<ContractClass>) -> Result<
    ContractClass,
    StateError,
> {
    match fetched {
        Some(class) => Ok(class),
        None => Err(StateError::ClassNotFound(class_hash)),
    }
}

/// The compiled class that a lookup under `class_hash` yields, where
/// `fetched` is what the reader answered.
pub fn class_or_not_found(class_hash: &ClassHash, fetched: Option<ContractClass>) -> (r: Result<
    ContractClass,
    StateError,
>)
    ensures
        r == class_lookup(*class_hash, fetched),
{
    match fetched {
        Some(class) => Ok(class),
        None => Err(StateError::ClassNotFound(*class_hash)),
    }
}

/// The delta that the writes of a scope amount to: the contracts touched and
/// the values written.
#[derive(Debug)]
pub struct StateDiff {
    pub accessed_addresses: Vec<Address>,
    pub address_to_class_hash: VecMap<Address, ClassHash>,
    pub address_to_nonce: VecMap<Address, Felt>,
    pub storage_updates: VecMap<StorageEntry, Felt>,
}

/// A state reader with a cache of the cells read and written in one scope.
#[derive(Debug)]
pub struct CachedState<T> {
    pub state_reader: T,
    pub cache: StateCache,
}

impl<T: StateReader> CachedState<T> {
    /// A scope over `state_reader` in which no cell has been touched.
    pub fn new(state_reader: T) -> (r: Self)
        ensures
            r.state_reader == state_reader,
            r.cache@ == StateCacheView::empty(),
    {
        CachedState { state_reader, cache: StateCache::new() }
    }

    /// Completes a read of the class hash at `contract_address` with the
    /// reader's answer `fetched`, which counts only if the cell is not cached.
    pub fn resolve_class_hash(&mut self, contract_address: &Address, fetched: Option<ClassHash>) -> (r:
        Result<ClassHash, StateError>)
        ensures
            final(self).state_reader == old(self).state_reader,
            (final(self).cache@, r) == read_class_hash(old(self).cache@, *contract_address, fetched),
    {
        let cached = match self.cache.get_class_hash(contract_address) {
            Some(value) => Some(*value),
            None => None,
        };
        match cached {
            Some(value) => Ok(value),
            None => match fetched {
                Some(value) => {
                    self.cache.record_class_hash_initial(*contract_address, value);
                    Ok(value)
                },
                None => Err(StateError::NotDeployed(*contract_address)),
            },
        }
    }

    /// Completes a read of the nonce at `contract_address` with the reader's
    /// answer `fetched`, which counts only if the cell is not cached.
    pub fn resolve_nonce(&mut self, contract_address: &Address, fetched: Felt) -> (r: Felt)
        ensures
            final(self).state_reader == old(self).state_reader,
            (final(self).cache@, r) == read_nonce(old(self).cache@, *contract_address, fetched),
    {
        let cached = match self.cache.get_nonce(contract_address) {
            Some(value) => Some(*value),
            None => None,
        };
        match cached {
            Some(value) => value,
            None => {
                self.cache.record_nonce_initial(*contract_address, fetched);
                fetched
            },
        }
    }

    /// Completes a read of the cell `storage_entry` with the reader's answer
    /// `fetched`, which counts only if the cell is not cached.
    pub fn resolve_storage(&mut self, storage_entry: &StorageEntry, fetched: Felt) -> (r: Felt)
        ensures
            final(self).state_reader == old(self).state_reader,
            (final(self).cache@, r) == read_storage(old(self).cache@, *storage_entry, fetched),
    {
        let cached = match self.cache.get_storage(storage_entry) {
            Some(value) => Some(*value),
            None => None,
        };
        match cached {
            Some(value) => value,
            None => {
                self.cache.record_storage_initial(*storage_entry, fetched);
                fetched
            },
        }
    }

    /// The class hash at `contract_address`.  A cached cell is answered from
    /// the cache and the scope stays as it is; otherwise the reader is asked
    /// once, and its answer is noted as the value first observed.
    pub fn get_class_hash_at(&mut self, contract_address: &Address) -> (r: Result<ClassHash, StateError>)
        ensures
            final(self).state_reader == old(self).state_reader,
            old(self).cache@.get_class_hash(*contract_address).is_some() ==> *final(self) == *old(self)
                && r == Ok::<ClassHash, StateError>(
                old(self).cache@.get_class_hash(*contract_address).unwrap(),
            ),
            old(self).cache@.get_class_hash(*contract_address).is_none() ==> (match r {
                Ok(value) => final(self).cache@ == old(self).cache@.record_class_hash_initial(
                    *contract_address,
                    value,
                ),
                Err(e) => e == StateError::NotDeployed(*contract_address) && final(self).cache@ == old(self).cache@,
            }),
            old(self).cache@.get_class_hash(*contract_address).is_none() ==> exists|fetched: Option<ClassHash>| #[trigger]
                old(self).reader_may_answer_class_hash(*contract_address, fetched) && (final(self).cache@, r)
                    == read_class_hash(old(self).cache@, *contract_address, fetched),
    {
        match self.cache.get_class_hash(contract_address) {
            Some(value) => Ok(*value),
            None => {
                let fetched = self.state_reader.get_class_hash_at(contract_address);
                assert(self.reader_may_answer_class_hash(*contract_address, fetched));
                self.resolve_class_hash(contract_address, fetched)
            },
        }
    }

    /// The nonce at `contract_address`.  A cached cell is answered from the
    /// cache and the scope stays as it is; otherwise the reader is asked once,
    /// and its answer is noted as the value first observed.
    pub fn get_nonce_at(&mut self, contract_address: &Address) -> (r: Felt)
        ensures
            final(self).state_reader == old(self).state_reader,
            old(self).cache@.get_nonce(*contract_address).is_some() ==> *final(self) == *old(self) && r
                == old(self).cache@.get_nonce(*contract_address).unwrap(),
            old(self).cache@.get_nonce(*contract_address).is_none() ==> final(self).cache@ == old(self).cache@.record_nonce_initial(*contract_address, r)
                && old(self).reader_may_answer_nonce(*contract_address, r),
            final(self).cache@.get_nonce(*contract_address) == Some(r),
    {
        match self.cache.get_nonce(contract_address) {
            Some(value) => *value,
            None => {
                let fetched = self.state_reader.get_nonce_at(contract_address);
                assert(self.reader_may_answer_nonce(*contract_address, fetched));
                self.resolve_nonce(contract_address, fetched)
            },
        }
    }

    /// The value of the cell `storage_entry`.  A cached cell is answered from
    /// the cache and the scope stays as it is; otherwise the reader is asked
    /// once, and its answer is noted as the value first observed.
    pub fn get_storage_at(&mut self, storage_entry: &StorageEntry) -> (r: Felt)
        ensures
            final(self).state_reader == old(self).state_reader,
            old(self).cache@.get_storage(*storage_entry).is_some() ==> *final(self) == *old(self) && r
                == old(self).cache@.get_storage(*storage_entry).unwrap(),
            old(self).cache@.get_storage(*storage_entry).is_none() ==> final(self).cache@ == old(self).cache@.record_storage_initial(*storage_entry, r)
                && old(self).reader_may_answer_storage(*storage_entry, r),
            final(self).cache@.get_storage(*storage_entry) == Some(r),
    {
        match self.cache.get_storage(storage_entry) {
            Some(value) => *value,
            None => {
                let fetched = self.state_reader.get_storage_at(storage_entry);
                assert(self.reader_may_answer_storage(*storage_entry, fetched));
                self.resolve_storage(storage_entry, fetched)
            },
        }
    }

    /// Writes the class hash at `contract_address` in this scope.
    pub fn set_class_hash_at(&mut self, contract_address: Address, class_hash: ClassHash)
        ensures
            final(self).state_reader == old(self).state_reader,
            final(self).cache@ == old(self).cache@.write_class_hash(contract_address, class_hash),
    {
        self.cache.write_class_hash(contract_address, class_hash);
    }

    /// Writes the nonce at `contract_address` in this scope.
    pub fn set_nonce_at(&mut self, contract_address: Address, nonce: Felt)
        ensures
            final(self).state_reader == old(self).state_reader,
            final(self).cache@ == old(self).cache@.write_nonce(contract_address, nonce),
    {
        self.cache.write_nonce(contract_address, nonce);
    }

    /// Writes the value of the cell `storage_entry` in this scope.
    pub fn set_storage_at(&mut self, storage_entry: StorageEntry, value: Felt)
        ensures
            final(self).state_reader == old(self).state_reader,
            final(self).cache@ == old(self).cache@.write_storage(storage_entry, value),
    {
        self.cache.write_storage(storage_entry, value);
    }

    /// Takes over the writes of a scope that completed: they are laid over
    /// the writes of this scope, and what this scope first observed stays.
    pub fn merge_child(&mut self, child: &CachedState<T>)
        ensures
            final(self).state_reader == old(self).state_reader,
            final(self).cache@ == old(self).cache@.update_writes_from_other(child.cache@),
    {
        self.cache.update_writes_from_other(&child.cache);
    }

    /// The delta that the writes of this scope amount to.
    pub fn state_diff(&self) -> (r: StateDiff)
        ensures
            r.accessed_addresses@.no_duplicates(),
            r.accessed_addresses@.to_set() == self.cache@.accessed_addresses(),
            r.address_to_class_hash@ == self.cache@.class_hash_writes,
            r.address_to_nonce@ == self.cache@.nonce_writes,
            r.storage_updates@ == self.cache@.storage_writes,
    {
        StateDiff {
            accessed_addresses: self.cache.get_accessed_contract_addresses(),
            address_to_class_hash: self.cache.class_hash_writes.duplicate(),
            address_to_nonce: self.cache.nonce_writes.duplicate(),
            storage_updates: self.cache.storage_writes.duplicate(),
        }
    }

    /// `fetched` is an answer that the reader may give when it is asked for
    /// the class hash at `address`.
    pub open spec fn reader_may_answer_class_hash(&self, address: Address, fetched: Option<ClassHash>) -> bool {
        call_ensures(T::get_class_hash_at, (&self.state_reader, &address), fetched)
    }

    /// `fetched` is an answer that the reader may give when it is asked for
    /// the nonce at `address`.
    pub open spec fn reader_may_answer_nonce(&self, address: Address, fetched: Felt) -> bool {
        call_ensures(T::get_nonce_at, (&self.state_reader, &address), fetched)
    }

    /// `fetched` is an answer that the reader may give when it is asked for
    /// the value of the cell `entry`.
    pub open spec fn reader_may_answer_storage(&self, entry: StorageEntry, fetched: Felt) -> bool {
        call_ensures(T::get_storage_at, (&self.state_reader, &entry), fetched)
    }

    /// `fetched` is an answer that the reader may give when it is asked for
    /// the class under `class_hash`.
    pub open spec fn reader_may_answer_class(&self, class_hash: ClassHash, fetched: Option<ContractClass>) -> bool {
        call_ensures(T::get_contract_class, (&self.state_reader, &class_hash), fetched)
    }

    /// The compiled class known under `class_hash`: the reader is asked, and
    /// its answer is the result, with `ClassNotFound` where it has none.
    pub fn get_contract_class(&self, class_hash: &ClassHash) -> (r: Result<ContractClass, StateError>)
        ensures
            r.is_err() ==> r == Err::<ContractClass, StateError>(StateError::ClassNotFound(*class_hash)),
            exists|fetched: Option<ContractClass>| #[trigger]
                self.reader_may_answer_class(*class_hash, fetched) && r == class_lookup(*class_hash, fetched),
    {
        let fetched = self.state_reader.get_contract_class(class_hash);
        assert(self.reader_may_answer_class(*class_hash, fetched));
        class_or_not_found(class_hash, fetched)
    }
}

impl<T: StateReader + Clone> Clone for CachedState<T> {
    /// A scope of its own with the same reader and a copy of the cache:
    /// nothing done to the copy reaches the scope it was made from.
    fn clone(&self) -> (r: Self)
        ensures
            r.cache@ == self.cache@,
            cloned::<T>(self.state_reader, r.state_reader),
    {
        CachedState { state_reader: self.state_reader.clone(), cache: self.cache.clone() }
    }
}

/// Once a cell has been read, the scope answers for it without the reader:
/// whatever the reader would say on a later read, the result is the value of
/// the first read and the scope stays as it is.
pub proof fn lemma_read_through_once(
    cache: StateCacheView,
    address: Address,
    entry: StorageEntry,
    first: Felt,
    later: Felt,
    first_hash: ClassHash,
    later_hash: Option<ClassHash>,
)
    ensures
        read_storage(read_storage(cache, entry, first).0, entry, later) == read_storage(
            cache,
            entry,
            first,
        ),
        read_nonce(read_nonce(cache, address, first).0, address, later) == read_nonce(
            cache,
            address,
            first,
        ),
        read_class_hash(read_class_hash(cache, address, Some(first_hash)).0, address, later_hash)
            == read_class_hash(cache, address, Some(first_hash)),
        cache.get_storage(entry).is_none() ==> read_storage(cache, entry, first).1 == first,
        cache.get_nonce(address).is_none() ==> read_nonce(cache, address, first).1 == first,
        cache.get_class_hash(address).is_none() ==> read_class_hash(cache, address, Some(first_hash)).1
            == Ok::<ClassHash, StateError>(first_hash),
{
}

/// Writes of a scope that is dropped never reach its parent, and a merge
/// changes nothing but the writes: a cell that the child did not write
/// reads in the parent as before.
pub proof fn lemma_merge_touches_only_child_writes(
    parent: StateCacheView,
    child: StateCacheView,
    address: Address,
    entry: StorageEntry,
)
    ensures
        !child.storage_writes.contains_key(entry) ==> parent.update_writes_from_other(child).get_storage(
            entry,
        ) == parent.get_storage(entry),
        !child.nonce_writes.contains_key(address) ==> parent.update_writes_from_other(child).get_nonce(
            address,
        ) == parent.get_nonce(address),
        !child.class_hash_writes.contains_key(address) ==> parent.update_writes_from_other(
            child,
        ).get_class_hash(address) == parent.get_class_hash(address),
        child.storage_writes.contains_key(entry) ==> parent.update_writes_from_other(child).get_storage(
            entry,
        ) == Some(child.storage_writes[entry]),
{
}

} // verus!
