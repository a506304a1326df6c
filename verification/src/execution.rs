pub mod deployment;
pub mod execution_entry_point;
pub mod objects;
