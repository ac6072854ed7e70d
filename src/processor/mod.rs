pub mod instruction;
pub mod processing_manager;
pub mod processor_error;
