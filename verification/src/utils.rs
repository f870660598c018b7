pub mod hasher;
pub mod json;
pub mod message;
pub mod text;
pub mod unambiguous;
