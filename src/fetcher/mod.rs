pub mod fetcher_error;
pub mod decompose;
pub mod fetching_manager;
pub mod fetching_settings;
pub mod raw;
pub mod tx;
