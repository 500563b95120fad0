//! Message sending and receiving.

pub mod recv;
pub mod send;
