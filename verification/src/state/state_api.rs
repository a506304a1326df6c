//! The read-only source of truth that a cached state falls back on.

use crate::contract_class::ContractClass;
use crate::felt::{Address, ClassHash, Felt, StorageEntry};
use vstd::prelude::*;

verus! {

/// A read-only source of class hashes, nonces, storage values and compiled
/// classes.  Nothing is assumed of what an implementation answers.
pub trait StateReader {
    /// The compiled class known under `class_hash`, if any.
    fn get_contract_class(&self, class_hash: &ClassHash) -> Option<ContractClass>;

    /// The class hash of the contract deployed at `contract_address`, if any.
    fn get_class_hash_at(&self, contract_address: &Address) -> Option<ClassHash>;

    /// The nonce of the contract at `contract_address`.
    fn get_nonce_at(&self, contract_address: &Address) -> Felt;

    /// The value of a storage cell; a cell that was never written reads as zero.
    fn get_storage_at(&self, storage_entry: &StorageEntry) -> Felt;
}

} // verus!
