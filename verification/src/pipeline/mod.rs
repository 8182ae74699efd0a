pub mod ingest;
pub mod message;
pub mod processor;
pub mod simulation;
pub mod writer;
