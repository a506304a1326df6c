//! A state reader that keeps everything in memory.

use crate::contract_class::ContractClass;
use crate::felt::{Address, ClassHash, Felt, StorageEntry};
use crate::state::state_api::StateReader;
use crate::vec_map::VecMap;
use vstd::prelude::*;

verus! {

/// The deployed contracts, their nonces and storage, and the known classes.
#[derive(Debug)]
pub struct InMemoryStateReader {
    pub address_to_class_hash: VecMap<Address, ClassHash>,
    pub address_to_nonce: VecMap<Address, Felt>,
    pub address_to_storage: VecMap<StorageEntry, Felt>,
    pub class_hash_to_contract_class: VecMap<ClassHash, ContractClass>,
}

impl InMemoryStateReader {
    /// A reader that knows no contract and no class.
    pub fn new() -> (r: Self)
        ensures
            r.address_to_class_hash@ == Map::<Address, ClassHash>::empty(),
            r.address_to_nonce@ == Map::<Address, Felt>::empty(),
            r.address_to_storage@ == Map::<StorageEntry, Felt>::empty(),
            r.class_hash_to_contract_class@ == Map::<ClassHash, ContractClass>::empty(),
    {
        InMemoryStateReader {
            address_to_class_hash: VecMap::new(),
            address_to_nonce: VecMap::new(),
            address_to_storage: VecMap::new(),
            class_hash_to_contract_class: VecMap::new(),
        }
    }

    /// The nonce that the reader answers for `address`: zero unless one is set.
    pub open spec fn nonce_at(&self, address: Address) -> Felt {
        if self.address_to_nonce@.contains_key(address) {
            self.address_to_nonce@[address]
        } else {
            Felt { hi: 0, lo: 0 }
        }
    }

    /// The value that the reader answers for the cell `entry`: zero unless
    /// one is set.
    pub open spec fn storage_at(&self, entry: StorageEntry) -> Felt {
        if self.address_to_storage@.contains_key(entry) {
            self.address_to_storage@[entry]
        } else {
            Felt { hi: 0, lo: 0 }
        }
    }
}

impl StateReader for InMemoryStateReader {
    fn get_contract_class(&self, class_hash: &ClassHash) -> (r: Option<ContractClass>)
        ensures
            r.is_some() == self.class_hash_to_contract_class@.contains_key(*class_hash),
            r matches Some(class) ==> class.program == self.class_hash_to_contract_class@[*class_hash].program
                && class.entry_points@ == self.class_hash_to_contract_class@[*class_hash].entry_points@,
    {
        match self.class_hash_to_contract_class.get(class_hash) {
            Some(class) => Some(class.clone()),
            None => None,
        }
    }

    fn get_class_hash_at(&self, contract_address: &Address) -> (r: Option<ClassHash>)
        ensures
            r == (if self.address_to_class_hash@.contains_key(*contract_address) {
                Some(self.address_to_class_hash@[*contract_address])
            } else {
                None
            }),
    {
        match self.address_to_class_hash.get(contract_address) {
            Some(class_hash) => Some(*class_hash),
            None => None,
        }
    }

    fn get_nonce_at(&self, contract_address: &Address) -> (r: Felt)
        ensures
            r == self.nonce_at(*contract_address),
    {
        match self.address_to_nonce.get(contract_address) {
            Some(nonce) => *nonce,
            None => Felt::zero(),
        }
    }

    fn get_storage_at(&self, storage_entry: &StorageEntry) -> (r: Felt)
        ensures
            r == self.storage_at(*storage_entry),
    {
        match self.address_to_storage.get(storage_entry) {
            Some(value) => *value,
            None => Felt::zero(),
        }
    }
}

impl Clone for InMemoryStateReader {
    /// A reader that answers as this one does.
    fn clone(&self) -> (r: Self)
        ensures
            r.address_to_class_hash@ == self.address_to_class_hash@,
            r.address_to_nonce@ == self.address_to_nonce@,
            r.address_to_storage@ == self.address_to_storage@,
            r.class_hash_to_contract_class@.dom() == self.class_hash_to_contract_class@.dom(),
            forall|class_hash: ClassHash| #[trigger]
                self.class_hash_to_contract_class@.contains_key(class_hash)
                    ==> r.class_hash_to_contract_class@[class_hash].program
                    == self.class_hash_to_contract_class@[class_hash].program
                    && r.class_hash_to_contract_class@[class_hash].entry_points@
                    == self.class_hash_to_contract_class@[class_hash].entry_points@,
    {
        InMemoryStateReader {
            address_to_class_hash: self.address_to_class_hash.duplicate(),
            address_to_nonce: self.address_to_nonce.duplicate(),
            address_to_storage: self.address_to_storage.duplicate(),
            class_hash_to_contract_class: self.class_hash_to_contract_class.clone(),
        }
    }
}

} // verus!
