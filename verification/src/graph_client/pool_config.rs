//! How a pool of graph connections is to be sized and where it connects.

use vstd::prelude::*;

verus! {

#[derive(Debug, Clone)]
pub struct PoolConfig {
    /// connection timeout in ms
    pub timeout: u32,
    pub idle_time: u32,
    /// max limit count of connections in pool
    pub max_connection_pool_size: u32,
    /// min limit count of connections in pool, also the initial count if works well
    pub min_connection_pool_size: u32,
    /// address of graph server
    pub addresses: Vec<String>,
}

impl Default for PoolConfig {
    /// All numbers zero and no address.
    fn default() -> (config: Self)
        ensures
            config.timeout == 0,
            config.idle_time == 0,
            config.max_connection_pool_size == 0,
            config.min_connection_pool_size == 0,
            config.addresses@ == Seq::<String>::empty(),
    {
        PoolConfig {
            timeout: 0,
            idle_time: 0,
            max_connection_pool_size: 0,
            min_connection_pool_size: 0,
            addresses: Vec::new(),
        }
    }
}

impl PoolConfig {
    /// All numbers zero and no address.
    pub fn new() -> (config: Self)
        ensures
            config.timeout == 0,
            config.idle_time == 0,
            config.max_connection_pool_size == 0,
            config.min_connection_pool_size == 0,
            config.addresses@ == Seq::<String>::empty(),
    {
        PoolConfig {
            timeout: 0,
            idle_time: 0,
            max_connection_pool_size: 0,
            min_connection_pool_size: 0,
            addresses: Vec::new(),
        }
    }

    /// Sets the connection timeout, in milliseconds, and hands the configuration back.
    pub fn timeout(&mut self, timeout: u32) -> (config: &mut Self)
        ensures
            *config == (PoolConfig { timeout, ..*old(self) }),
            *final(self) == *final(config),
    {
        self.timeout = timeout;
        self
    }

    /// Sets the idle time and hands the configuration back.
    pub fn idle_time(&mut self, idle_time: u32) -> (config: &mut Self)
        ensures
            *config == (PoolConfig { idle_time, ..*old(self) }),
            *final(self) == *final(config),
    {
        self.idle_time = idle_time;
        self
    }

    /// Sets the largest number of connections and hands the configuration back.
    pub fn max_connection_pool_size(&mut self, size: u32) -> (config: &mut Self)
        ensures
            *config == (PoolConfig { max_connection_pool_size: size, ..*old(self) }),
            *final(self) == *final(config),
    {
        self.max_connection_pool_size = size;
        self
    }

    /// Sets the smallest number of connections and hands the configuration back.
    pub fn min_connection_pool_size(&mut self, size: u32) -> (config: &mut Self)
        ensures
            *config == (PoolConfig { min_connection_pool_size: size, ..*old(self) }),
            *final(self) == *final(config),
    {
        self.min_connection_pool_size = size;
        self
    }

    /// Replaces the addresses and hands the configuration back.
    pub fn addresses(&mut self, addresses: Vec<String>) -> (config: &mut Self)
        ensures
            *config == (PoolConfig { addresses, ..*old(self) }),
            *final(self) == *final(config),
    {
        self.addresses = addresses;
        self
    }

    /// Adds one address after those already there and hands the configuration back.
    pub fn address(&mut self, address: String) -> (config: &mut Self)
        ensures
            config.addresses@ == old(self).addresses@.push(address),
            config.timeout == old(self).timeout,
            config.idle_time == old(self).idle_time,
            config.max_connection_pool_size == old(self).max_connection_pool_size,
            config.min_connection_pool_size == old(self).min_connection_pool_size,
            *final(self) == *final(config),
    {
        self.addresses.push(address);
        self
    }
}

} // verus!
