pub mod handlers;
pub mod jsonrpc_types;
pub mod validate;
