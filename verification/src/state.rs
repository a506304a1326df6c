pub mod cached_state;
pub mod in_memory_state_reader;
pub mod state_api;
pub mod state_cache;
