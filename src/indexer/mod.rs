pub mod indexer_engine;
pub mod indexer_report;
