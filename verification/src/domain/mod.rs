pub mod bundle;
pub mod job;
pub mod result;
pub mod time;
