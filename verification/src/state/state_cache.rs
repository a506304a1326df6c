//! The read and write sets of one execution scope.

use crate::errors::StateError;
use crate::felt::{Address, ClassHash, Felt, StorageEntry};
use crate::vec_map::{ExecEq, VecMap};
use vstd::prelude::*;

verus! {

/// What a [`StateCache`] stands for: per tracked quantity, the values first
/// observed and the values last written.
pub struct StateCacheView {
    pub class_hash_initial_values: Map<Address, ClassHash>,
    pub nonce_initial_values: Map<Address, Felt>,
    pub storage_initial_values: Map<StorageEntry, Felt>,
    pub class_hash_writes: Map<Address, ClassHash>,
    pub nonce_writes: Map<Address, Felt>,
    pub storage_writes: Map<StorageEntry, Felt>,
}

/// What a read of `key` finds: the written value, else the first observed
/// value, else nothing.
pub open spec fn lookup<K, V>(initial: Map<K, V>, writes: Map<K, V>, key: K) -> Option<V> {
    if writes.contains_key(key) {
        Some(writes[key])
    } else if initial.contains_key(key) {
        Some(initial[key])
    } else {
        None
    }
}

/// `initial` after `value` has been observed for `key`: the first
/// observation stays.
pub open spec fn record<K, V>(initial: Map<K, V>, key: K, value: V) -> Map<K, V> {
    if initial.contains_key(key) {
        initial
    } else {
        initial.insert(key, value)
    }
}

impl StateCacheView {
    /// The cache in which no cell has been touched.
    pub open spec fn empty() -> StateCacheView {
        StateCacheView {
            class_hash_initial_values: Map::empty(),
            nonce_initial_values: Map::empty(),
            storage_initial_values: Map::empty(),
            class_hash_writes: Map::empty(),
            nonce_writes: Map::empty(),
            storage_writes: Map::empty(),
        }
    }

    /// No cell has been read, written or primed.
    pub open spec fn is_untouched(self) -> bool {
        self == StateCacheView::empty()
    }

    pub open spec fn get_class_hash(self, address: Address) -> Option<ClassHash> {
        lookup(self.class_hash_initial_values, self.class_hash_writes, address)
    }

    pub open spec fn get_nonce(self, address: Address) -> Option<Felt> {
        lookup(self.nonce_initial_values, self.nonce_writes, address)
    }

    pub open spec fn get_storage(self, entry: StorageEntry) -> Option<Felt> {
        lookup(self.storage_initial_values, self.storage_writes, entry)
    }

    pub open spec fn record_class_hash_initial(self, address: Address, value: ClassHash) -> StateCacheView {
        StateCacheView {
            class_hash_initial_values: record(self.class_hash_initial_values, address, value),
            ..self
        }
    }

    pub open spec fn record_nonce_initial(self, address: Address, value: Felt) -> StateCacheView {
        StateCacheView { nonce_initial_values: record(self.nonce_initial_values, address, value), ..self }
    }

    pub open spec fn record_storage_initial(self, entry: StorageEntry, value: Felt) -> StateCacheView {
        StateCacheView { storage_initial_values: record(self.storage_initial_values, entry, value), ..self }
    }

    pub open spec fn write_class_hash(self, address: Address, value: ClassHash) -> StateCacheView {
        StateCacheView { class_hash_writes: self.class_hash_writes.insert(address, value), ..self }
    }

    pub open spec fn write_nonce(self, address: Address, value: Felt) -> StateCacheView {
        StateCacheView { nonce_writes: self.nonce_writes.insert(address, value), ..self }
    }

    pub open spec fn write_storage(self, entry: StorageEntry, value: Felt) -> StateCacheView {
        StateCacheView { storage_writes: self.storage_writes.insert(entry, value), ..self }
    }

    /// The cache after the three maps have been laid over its writes.
    pub open spec fn update_writes(
        self,
        address_to_class_hash: Map<Address, ClassHash>,
        address_to_nonce: Map<Address, Felt>,
        storage_updates: Map<StorageEntry, Felt>,
    ) -> StateCacheView {
        StateCacheView {
            class_hash_writes: self.class_hash_writes.union_prefer_right(address_to_class_hash),
            nonce_writes: self.nonce_writes.union_prefer_right(address_to_nonce),
            storage_writes: self.storage_writes.union_prefer_right(storage_updates),
            ..self
        }
    }

    /// The cache after the writes of `other` have been laid over its own.
    pub open spec fn update_writes_from_other(self, other: StateCacheView) -> StateCacheView {
        self.update_writes(other.class_hash_writes, other.nonce_writes, other.storage_writes)
    }

    /// The cache primed with a snapshot: the snapshot is both what was first
    /// observed and what was last written.
    pub open spec fn primed(
        address_to_class_hash: Map<Address, ClassHash>,
        address_to_nonce: Map<Address, Felt>,
        storage_updates: Map<StorageEntry, Felt>,
    ) -> StateCacheView {
        StateCacheView {
            class_hash_initial_values: address_to_class_hash,
            nonce_initial_values: address_to_nonce,
            storage_initial_values: storage_updates,
            class_hash_writes: address_to_class_hash,
            nonce_writes: address_to_nonce,
            storage_writes: storage_updates,
        }
    }

    /// The addresses that the writes touch: those with a written class hash
    /// or nonce, and those that own a written storage cell.
    pub open spec fn accessed_addresses(self) -> Set<Address> {
        Set::new(
            |a: Address|
                self.class_hash_writes.contains_key(a) || self.nonce_writes.contains_key(a) || exists|
                    k: [u8; 32],
                | #[trigger] self.storage_writes.contains_key((a, k)),
        )
    }
}

/// One write to a cache.
pub enum WriteOp {
    ClassHash(Address, ClassHash),
    Nonce(Address, Felt),
    Storage(StorageEntry, Felt),
}

impl WriteOp {
    /// The contract that the write touches.
    pub open spec fn address(self) -> Address {
        match self {
            WriteOp::ClassHash(address, _) => address,
            WriteOp::Nonce(address, _) => address,
            WriteOp::Storage(entry, _) => entry.0,
        }
    }
}

/// The cache after one write.
pub open spec fn apply_write(cache: StateCacheView, op: WriteOp) -> StateCacheView {
    match op {
        WriteOp::ClassHash(address, value) => cache.write_class_hash(address, value),
        WriteOp::Nonce(address, value) => cache.write_nonce(address, value),
        WriteOp::Storage(entry, value) => cache.write_storage(entry, value),
    }
}

/// The cache after a sequence of writes, applied in order.
pub open spec fn apply_writes(cache: StateCacheView, ops: Seq<WriteOp>) -> StateCacheView
    decreases ops.len(),
{
    if ops.len() == 0 {
        cache
    } else {
        apply_write(apply_writes(cache, ops.drop_last()), ops.last())
    }
}

/// The contracts that a sequence of writes touches.
pub open spec fn written_addresses(ops: Seq<WriteOp>) -> Set<Address> {
    Set::new(|a: Address| exists|i: int| 0 <= i < ops.len() && (#[trigger] ops[i]).address() == a)
}

/// After any sequence of writes, the accessed addresses are those accessed
/// before together with the contracts that the writes touch.
pub proof fn lemma_accessed_addresses_of_writes(cache: StateCacheView, ops: Seq<WriteOp>)
    ensures
        apply_writes(cache, ops).accessed_addresses() == cache.accessed_addresses().union(
            written_addresses(ops),
        ),
    decreases ops.len(),
{
    if ops.len() == 0 {
        assert(apply_writes(cache, ops).accessed_addresses() =~= cache.accessed_addresses().union(
            written_addresses(ops),
        ));
    } else {
        let before = ops.drop_last();
        let middle = apply_writes(cache, before);
        lemma_accessed_addresses_of_writes(cache, before);
        let any_hash: [u8; 32] = arbitrary();
        let any_value: Felt = arbitrary();
        match ops.last() {
            WriteOp::ClassHash(address, value) => {
                lemma_accessed_addresses_follow_writes(middle, address, any_hash, value, any_value);
            },
            WriteOp::Nonce(address, value) => {
                lemma_accessed_addresses_follow_writes(middle, address, any_hash, any_hash, value);
            },
            WriteOp::Storage(entry, value) => {
                lemma_accessed_addresses_follow_writes(middle, entry.0, entry.1, any_hash, value);
                assert(entry == (entry.0, entry.1));
            },
        }
        let touched = ops.last().address();
        assert(apply_writes(cache, ops).accessed_addresses() == middle.accessed_addresses().insert(touched));
        assert forall|a: Address|
            written_addresses(ops).contains(a) <==> (written_addresses(before).contains(a) || a
                == touched) by {
            if written_addresses(ops).contains(a) {
                let i = choose|i: int| 0 <= i < ops.len() && (#[trigger] ops[i]).address() == a;
                if i < before.len() {
                    assert(before[i].address() == a);
                }
            }
            if written_addresses(before).contains(a) {
                let i = choose|i: int| 0 <= i < before.len() && (#[trigger] before[i]).address() == a;
                assert(ops[i].address() == a);
            }
            if a == touched {
                assert(ops[ops.len() - 1].address() == a);
            }
        }
        assert(apply_writes(cache, ops).accessed_addresses() =~= cache.accessed_addresses().union(
            written_addresses(ops),
        ));
    }
}

/// Appends `address` to `set` unless it is there already.
fn push_unique(set: &mut Vec<Address>, address: Address)
    requires
        old(set)@.no_duplicates(),
    ensures
        final(set)@.no_duplicates(),
        forall|x: Address| final(set)@.contains(x) <==> (old(set)@.contains(x) || x == address),
{
    let mut i: usize = 0;
    while i < set.len()
        invariant
            i <= set@.len(),
            set@ == old(set)@,
            set@.no_duplicates(),
            forall|j: int| 0 <= j < i ==> set@[j] != address,
        decreases set@.len() - i,
    {
        if set[i].exec_eq(&address) {
            assert(set@.contains(set@[i as int]));
            return ;
        }
        i += 1;
    }
    set.push(address);
    proof {
        let before = old(set)@;
        let after = set@;
        assert forall|x: Address| after.contains(x) <==> (before.contains(x) || x == address) by {
            if after.contains(x) {
                let j = choose|j: int| 0 <= j < after.len() && after[j] == x;
                if j < before.len() {
                    assert(before[j] == x);
                }
            }
            if before.contains(x) {
                let j = choose|j: int| 0 <= j < before.len() && before[j] == x;
                assert(after[j] == x);
            }
            if x == address {
                assert(after[before.len() as int] == x);
            }
        }
    }
}

/// Appends to `set` the addresses of `addresses` that it lacks.
fn push_all_unique(set: &mut Vec<Address>, addresses: &Vec<Address>)
    requires
        old(set)@.no_duplicates(),
    ensures
        final(set)@.no_duplicates(),
        forall|x: Address| final(set)@.contains(x) <==> (old(set)@.contains(x) || addresses@.contains(x)),
{
    let mut i: usize = 0;
    while i < addresses.len()
        invariant
            i <= addresses@.len(),
            set@.no_duplicates(),
            forall|x: Address|
                set@.contains(x) <==> (old(set)@.contains(x) || exists|j: int|
                    0 <= j < i && addresses@[j] == x),
        decreases addresses@.len() - i,
    {
        push_unique(set, addresses[i]);
        i += 1;
    }
}

/// The contracts that own the cells of `entries`, in order.
fn owners(entries: &Vec<StorageEntry>) -> (r: Vec<Address>)
    ensures
        r@ == entries@.map_values(|e: StorageEntry| e.0),
{
    let mut r: Vec<Address> = Vec::new();
    let mut i: usize = 0;
    while i < entries.len()
        invariant
            i <= entries@.len(),
            r@ == entries@.take(i as int).map_values(|e: StorageEntry| e.0),
        decreases entries@.len() - i,
    {
        r.push(entries[i].0);
        assert(entries@.take(i + 1).map_values(|e: StorageEntry| e.0) =~= entries@.take(
            i as int,
        ).map_values(|e: StorageEntry| e.0).push(entries@[i as int].0));
        i += 1;
    }
    assert(entries@.take(entries@.len() as int) =~= entries@);
    r
}

/// Observing a cell twice keeps the first observation: a second value for
/// the same key changes nothing.
pub proof fn lemma_record_initial_keeps_first(
    cache: StateCacheView,
    address: Address,
    entry: StorageEntry,
    first_hash: ClassHash,
    second_hash: ClassHash,
    first: Felt,
    second: Felt,
)
    ensures
        cache.record_class_hash_initial(address, first_hash).record_class_hash_initial(
            address,
            second_hash,
        ) == cache.record_class_hash_initial(address, first_hash),
        cache.record_nonce_initial(address, first).record_nonce_initial(address, second)
            == cache.record_nonce_initial(address, first),
        cache.record_storage_initial(entry, first).record_storage_initial(entry, second)
            == cache.record_storage_initial(entry, first),
        cache.record_class_hash_initial(address, first_hash).class_hash_initial_values[address] == (
        if cache.class_hash_initial_values.contains_key(address) {
            cache.class_hash_initial_values[address]
        } else {
            first_hash
        }),
        cache.record_nonce_initial(address, first).nonce_initial_values[address] == (
        if cache.nonce_initial_values.contains_key(address) {
            cache.nonce_initial_values[address]
        } else {
            first
        }),
        cache.record_storage_initial(entry, first).storage_initial_values[entry] == (
        if cache.storage_initial_values.contains_key(entry) {
            cache.storage_initial_values[entry]
        } else {
            first
        }),
{
}

/// A value that was written shadows what was first observed, whatever is
/// observed afterwards.
pub proof fn lemma_write_shadows_initial(cache: StateCacheView, entry: StorageEntry, written: Felt, seen: Felt)
    ensures
        cache.write_storage(entry, written).get_storage(entry) == Some(written),
        cache.write_storage(entry, written).record_storage_initial(entry, seen).get_storage(entry)
            == Some(written),
{
}

/// Merging the writes of `a` and then those of `b` into `parent` gives what
/// one merge of `a` overlaid with `b` gives; on a key that both wrote, the
/// value of `b` stays, and what `parent` first observed is untouched.
pub proof fn lemma_merge_in_order(parent: StateCacheView, a: StateCacheView, b: StateCacheView)
    ensures
        parent.update_writes_from_other(a).update_writes_from_other(b)
            == parent.update_writes_from_other(a.update_writes_from_other(b)),
        forall|k: StorageEntry| #[trigger]
            b.storage_writes.contains_key(k) ==> parent.update_writes_from_other(
                a,
            ).update_writes_from_other(b).get_storage(k) == Some(b.storage_writes[k]),
        forall|k: Address| #[trigger]
            b.nonce_writes.contains_key(k) ==> parent.update_writes_from_other(a).update_writes_from_other(
                b,
            ).get_nonce(k) == Some(b.nonce_writes[k]),
        forall|k: Address| #[trigger]
            b.class_hash_writes.contains_key(k) ==> parent.update_writes_from_other(
                a,
            ).update_writes_from_other(b).get_class_hash(k) == Some(b.class_hash_writes[k]),
        parent.update_writes_from_other(a).class_hash_initial_values == parent.class_hash_initial_values,
        parent.update_writes_from_other(a).nonce_initial_values == parent.nonce_initial_values,
        parent.update_writes_from_other(a).storage_initial_values == parent.storage_initial_values,
{
    let left = parent.update_writes_from_other(a).update_writes_from_other(b);
    let right = parent.update_writes_from_other(a.update_writes_from_other(b));
    assert(left.class_hash_writes =~= right.class_hash_writes);
    assert(left.nonce_writes =~= right.nonce_writes);
    assert(left.storage_writes =~= right.storage_writes);
}

/// Merging a scope that wrote nothing, or a copy that wrote nothing since it
/// was made, changes nothing.
pub proof fn lemma_merge_of_idle_scope(cache: StateCacheView, idle: StateCacheView)
    requires
        idle.class_hash_writes == Map::<Address, ClassHash>::empty() || idle.class_hash_writes
            == cache.class_hash_writes,
        idle.nonce_writes == Map::<Address, Felt>::empty() || idle.nonce_writes == cache.nonce_writes,
        idle.storage_writes == Map::<StorageEntry, Felt>::empty() || idle.storage_writes
            == cache.storage_writes,
    ensures
        cache.update_writes_from_other(idle) == cache,
{
    let merged = cache.update_writes_from_other(idle);
    assert(merged.class_hash_writes =~= cache.class_hash_writes);
    assert(merged.nonce_writes =~= cache.nonce_writes);
    assert(merged.storage_writes =~= cache.storage_writes);
}

/// Each write adds the written contract to the accessed addresses, also a
/// write to a storage cell alone; observing a value adds nothing.
pub proof fn lemma_accessed_addresses_follow_writes(
    cache: StateCacheView,
    address: Address,
    key: [u8; 32],
    hash: ClassHash,
    value: Felt,
)
    ensures
        StateCacheView::empty().accessed_addresses() == Set::<Address>::empty(),
        cache.write_class_hash(address, hash).accessed_addresses() == cache.accessed_addresses().insert(
            address,
        ),
        cache.write_nonce(address, value).accessed_addresses() == cache.accessed_addresses().insert(
            address,
        ),
        cache.write_storage((address, key), value).accessed_addresses()
            == cache.accessed_addresses().insert(address),
        cache.record_class_hash_initial(address, hash).accessed_addresses() == cache.accessed_addresses(),
        cache.record_nonce_initial(address, value).accessed_addresses() == cache.accessed_addresses(),
        cache.record_storage_initial((address, key), value).accessed_addresses()
            == cache.accessed_addresses(),
{
    assert(StateCacheView::empty().accessed_addresses() =~= Set::<Address>::empty());
    assert(cache.write_class_hash(address, hash).accessed_addresses()
        =~= cache.accessed_addresses().insert(address));
    assert(cache.write_nonce(address, value).accessed_addresses() =~= cache.accessed_addresses().insert(
        address,
    ));
    let after = cache.write_storage((address, key), value);
    assert forall|a: Address|
        after.accessed_addresses().contains(a) <==> cache.accessed_addresses().insert(address).contains(
            a,
        ) by {
        if a == address {
            assert(after.storage_writes.contains_key((a, key)));
        }
        if exists|k: [u8; 32]| #[trigger] after.storage_writes.contains_key((a, k)) {
            let k = choose|k: [u8; 32]| #[trigger] after.storage_writes.contains_key((a, k));
            if a != address {
                assert(cache.storage_writes.contains_key((a, k)));
            }
        }
        if exists|k: [u8; 32]| #[trigger] cache.storage_writes.contains_key((a, k)) {
            let k = choose|k: [u8; 32]| #[trigger] cache.storage_writes.contains_key((a, k));
            assert(after.storage_writes.contains_key((a, k)));
        }
    }
    assert(after.accessed_addresses() =~= cache.accessed_addresses().insert(address));
}

/// The values read and written in one execution scope.
#[derive(Debug)]
pub struct StateCache {
    pub class_hash_initial_values: VecMap<Address, ClassHash>,
    pub nonce_initial_values: VecMap<Address, Felt>,
    pub storage_initial_values: VecMap<StorageEntry, Felt>,
    pub class_hash_writes: VecMap<Address, ClassHash>,
    pub nonce_writes: VecMap<Address, Felt>,
    pub storage_writes: VecMap<StorageEntry, Felt>,
}

impl View for StateCache {
    type V = StateCacheView;

    open spec fn view(&self) -> StateCacheView {
        StateCacheView {
            class_hash_initial_values: self.class_hash_initial_values@,
            nonce_initial_values: self.nonce_initial_values@,
            storage_initial_values: self.storage_initial_values@,
            class_hash_writes: self.class_hash_writes@,
            nonce_writes: self.nonce_writes@,
            storage_writes: self.storage_writes@,
        }
    }
}

impl StateCache {
    /// A cache in which no cell has been touched.
    pub fn new() -> (r: Self)
        ensures
            r@ == StateCacheView::empty(),
    {
        StateCache {
            class_hash_initial_values: VecMap::new(),
            nonce_initial_values: VecMap::new(),
            storage_initial_values: VecMap::new(),
            class_hash_writes: VecMap::new(),
            nonce_writes: VecMap::new(),
            storage_writes: VecMap::new(),
        }
    }

    /// The class hash at `contract_address`: the written one, else the one
    /// first observed.
    pub fn get_class_hash(&self, contract_address: &Address) -> (r: Option<&ClassHash>)
        ensures
            match r {
                Some(v) => self@.get_class_hash(*contract_address) == Some(*v),
                None => self@.get_class_hash(*contract_address).is_none(),
            },
    {
        if self.class_hash_writes.contains_key(contract_address) {
            return self.class_hash_writes.get(contract_address);
        }
        self.class_hash_initial_values.get(contract_address)
    }

    /// The nonce at `contract_address`: the written one, else the one first
    /// observed.
    pub fn get_nonce(&self, contract_address: &Address) -> (r: Option<&Felt>)
        ensures
            match r {
                Some(v) => self@.get_nonce(*contract_address) == Some(*v),
                None => self@.get_nonce(*contract_address).is_none(),
            },
    {
        if self.nonce_writes.contains_key(contract_address) {
            return self.nonce_writes.get(contract_address);
        }
        self.nonce_initial_values.get(contract_address)
    }

    /// The value of the cell `storage_entry`: the written one, else the one
    /// first observed.
    pub fn get_storage(&self, storage_entry: &StorageEntry) -> (r: Option<&Felt>)
        ensures
            match r {
                Some(v) => self@.get_storage(*storage_entry) == Some(*v),
                None => self@.get_storage(*storage_entry).is_none(),
            },
    {
        if self.storage_writes.contains_key(storage_entry) {
            return self.storage_writes.get(storage_entry);
        }
        self.storage_initial_values.get(storage_entry)
    }

    /// Notes `value` as the class hash first observed at `contract_address`,
    /// unless one is noted already.
    pub fn record_class_hash_initial(&mut self, contract_address: Address, value: ClassHash)
        ensures
            final(self)@ == old(self)@.record_class_hash_initial(contract_address, value),
    {
        self.class_hash_initial_values.insert_if_absent(contract_address, value);
    }

    /// Notes `value` as the nonce first observed at `contract_address`,
    /// unless one is noted already.
    pub fn record_nonce_initial(&mut self, contract_address: Address, value: Felt)
        ensures
            final(self)@ == old(self)@.record_nonce_initial(contract_address, value),
    {
        self.nonce_initial_values.insert_if_absent(contract_address, value);
    }

    /// Notes `value` as the value first observed in the cell, unless one is
    /// noted already.
    pub fn record_storage_initial(&mut self, storage_entry: StorageEntry, value: Felt)
        ensures
            final(self)@ == old(self)@.record_storage_initial(storage_entry, value),
    {
        self.storage_initial_values.insert_if_absent(storage_entry, value);
    }

    /// Writes the class hash at `contract_address`.
    pub fn write_class_hash(&mut self, contract_address: Address, value: ClassHash)
        ensures
            final(self)@ == old(self)@.write_class_hash(contract_address, value),
    {
        self.class_hash_writes.insert(contract_address, value);
    }

    /// Writes the nonce at `contract_address`.
    pub fn write_nonce(&mut self, contract_address: Address, value: Felt)
        ensures
            final(self)@ == old(self)@.write_nonce(contract_address, value),
    {
        self.nonce_writes.insert(contract_address, value);
    }

    /// Writes the value of the cell `storage_entry`.
    pub fn write_storage(&mut self, storage_entry: StorageEntry, value: Felt)
        ensures
            final(self)@ == old(self)@.write_storage(storage_entry, value),
    {
        self.storage_writes.insert(storage_entry, value);
    }

    /// Lays the writes of `other` over the writes of this cache; what this
    /// cache first observed stays as it is.
    pub fn update_writes_from_other(&mut self, other: &Self)
        ensures
            final(self)@ == old(self)@.update_writes_from_other(other@),
    {
        self.class_hash_writes.extend_from(&other.class_hash_writes);
        self.nonce_writes.extend_from(&other.nonce_writes);
        self.storage_writes.extend_from(&other.storage_writes);
    }

    /// Lays the three maps over the writes of this cache.
    pub fn update_writes(
        &mut self,
        address_to_class_hash: &VecMap<Address, ClassHash>,
        address_to_nonce: &VecMap<Address, Felt>,
        storage_updates: &VecMap<StorageEntry, Felt>,
    )
        ensures
            final(self)@ == old(self)@.update_writes(
                address_to_class_hash@,
                address_to_nonce@,
                storage_updates@,
            ),
    {
        self.class_hash_writes.extend_from(address_to_class_hash);
        self.nonce_writes.extend_from(address_to_nonce);
        self.storage_writes.extend_from(storage_updates);
    }

    /// Whether no cell has been read, written or primed.
    pub fn is_untouched(&self) -> (r: bool)
        ensures
            r == self@.is_untouched(),
    {
        self.class_hash_initial_values.is_empty() && self.class_hash_writes.is_empty()
            && self.nonce_initial_values.is_empty() && self.nonce_writes.is_empty()
            && self.storage_initial_values.is_empty() && self.storage_writes.is_empty()
    }

    /// Primes an untouched cache with a snapshot, which becomes both what was
    /// first observed and what was last written.  A cache that holds anything
    /// is left as it is.
    pub fn set_initial_values(
        &mut self,
        address_to_class_hash: &VecMap<Address, ClassHash>,
        address_to_nonce: &VecMap<Address, Felt>,
        storage_updates: &VecMap<StorageEntry, Felt>,
    ) -> (r: Result<(), StateError>)
        ensures
            old(self)@.is_untouched() ==> r.is_ok() && final(self)@ == StateCacheView::primed(
                address_to_class_hash@,
                address_to_nonce@,
                storage_updates@,
            ),
            !old(self)@.is_untouched() ==> r == Err::<(), StateError>(
                StateError::StateCacheAlreadyInitialized,
            ) && final(self)@ == old(self)@,
    {
        if !self.is_untouched() {
            return Err(StateError::StateCacheAlreadyInitialized);
        }
        self.class_hash_initial_values = address_to_class_hash.duplicate();
        self.nonce_initial_values = address_to_nonce.duplicate();
        self.storage_initial_values = storage_updates.duplicate();
        self.update_writes(address_to_class_hash, address_to_nonce, storage_updates);
        proof {
            assert(Map::<Address, ClassHash>::empty().union_prefer_right(address_to_class_hash@)
                =~= address_to_class_hash@);
            assert(Map::<Address, Felt>::empty().union_prefer_right(address_to_nonce@)
                =~= address_to_nonce@);
            assert(Map::<StorageEntry, Felt>::empty().union_prefer_right(storage_updates@)
                =~= storage_updates@);
        }
        Ok(())
    }

    /// The addresses that the writes of this scope touch, each once.
    pub fn get_accessed_contract_addresses(&self) -> (r: Vec<Address>)
        ensures
            r@.no_duplicates(),
            r@.to_set() == self@.accessed_addresses(),
    {
        let mut set: Vec<Address> = Vec::new();
        let class_hash_keys = self.class_hash_writes.keys();
        let nonce_keys = self.nonce_writes.keys();
        let storage_keys = self.storage_writes.keys();
        let storage_owners = owners(&storage_keys);
        push_all_unique(&mut set, &class_hash_keys);
        push_all_unique(&mut set, &nonce_keys);
        push_all_unique(&mut set, &storage_owners);
        proof {
            assert forall|a: Address| set@.contains(a) <==> self@.accessed_addresses().contains(a) by {
                assert(class_hash_keys@.contains(a) <==> class_hash_keys@.to_set().contains(a));
                assert(nonce_keys@.contains(a) <==> nonce_keys@.to_set().contains(a));
                if storage_owners@.contains(a) {
                    let j = choose|j: int| 0 <= j < storage_owners@.len() && storage_owners@[j] == a;
                    assert(storage_keys@.contains(storage_keys@[j]));
                    assert(storage_keys@.to_set().contains(storage_keys@[j]));
                    assert(self.storage_writes@.contains_key((a, storage_keys@[j].1)));
                }
                if exists|k: [u8; 32]| #[trigger] self.storage_writes@.contains_key((a, k)) {
                    let k = choose|k: [u8; 32]| #[trigger] self.storage_writes@.contains_key((a, k));
                    assert(storage_keys@.to_set().contains((a, k)));
                    let j = choose|j: int| 0 <= j < storage_keys@.len() && storage_keys@[j] == (a, k);
                    assert(storage_owners@[j] == a);
                }
            }
            assert(set@.to_set() =~= self@.accessed_addresses());
        }
        set
    }
}

impl Clone for StateCache {
    /// A copy that shares nothing with this cache.
    fn clone(&self) -> (r: Self)
        ensures
            r@ == self@,
    {
        StateCache {
            class_hash_initial_values: self.class_hash_initial_values.duplicate(),
            nonce_initial_values: self.nonce_initial_values.duplicate(),
            storage_initial_values: self.storage_initial_values.duplicate(),
            class_hash_writes: self.class_hash_writes.duplicate(),
            nonce_writes: self.nonce_writes.duplicate(),
            storage_writes: self.storage_writes.duplicate(),
        }
    }
}

} // verus!
