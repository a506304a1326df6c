//! The settings of the network that a transaction runs against.

use crate::felt::{Address, Felt};
use vstd::prelude::*;

verus! {

/// The settings of the operating system of the network.
#[derive(Clone, Copy, Debug, PartialEq, Eq)]
pub struct StarknetOsConfig {
    pub fee_token_address: Address,
}

impl StarknetOsConfig {
    /// The contract in whose storage the fee token's balances are kept.
    pub fn fee_token_address(&self) -> (r: &Address)
        ensures
            *r == self.fee_token_address,
    {
        &self.fee_token_address
    }
}

/// The settings that every transaction of a block shares.
#[derive(Clone, Copy, Debug, PartialEq, Eq)]
pub struct StarknetGeneralConfig {
    pub starknet_os_config: StarknetOsConfig,
    pub gas_price: u64,
}

impl StarknetGeneralConfig {
    /// The settings with the given fee token and gas price.
    pub fn new(fee_token_address: Address, gas_price: u64) -> (r: Self)
        ensures
            r.starknet_os_config.fee_token_address == fee_token_address,
            r.gas_price == gas_price,
    {
        StarknetGeneralConfig { starknet_os_config: StarknetOsConfig { fee_token_address }, gas_price }
    }

    /// The settings of the operating system.
    pub fn starknet_os_config(&self) -> (r: &StarknetOsConfig)
        ensures
            *r == self.starknet_os_config,
    {
        &self.starknet_os_config
    }
}

impl Default for StarknetGeneralConfig {
    /// The fee token at address 4097 and a gas price of zero.
    fn default() -> (r: Self)
        ensures
            r.starknet_os_config.fee_token_address == Address(Felt { hi: 0, lo: 4097 }),
            r.gas_price == 0,
    {
        StarknetGeneralConfig::new(Address(Felt { hi: 0, lo: 4097 }), 0)
    }
}

} // verus!
