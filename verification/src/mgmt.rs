//! Management commands.

pub mod acc;
