pub mod block;
pub mod init;
