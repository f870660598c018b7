pub mod blockchain;
pub mod time;
