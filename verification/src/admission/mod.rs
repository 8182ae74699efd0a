pub mod bundle;
