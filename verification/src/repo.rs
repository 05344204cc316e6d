pub mod client;
pub mod interface;
pub mod mem;
