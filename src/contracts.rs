//! The contract file: the interface description that client generators read.
pub mod compile;
pub mod contract_file;
pub mod lirpc_method;
pub mod lirpc_type;
pub mod serializable_type;
