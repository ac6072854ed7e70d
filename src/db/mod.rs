pub mod memory_store;
