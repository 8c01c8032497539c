//! A small interactive task manager: an ordered store of task records, the
//! record form used to persist them, and the command session that drives it.

pub mod task;
pub mod error;
pub mod store;
pub mod codec;
pub mod number;
pub mod session;
