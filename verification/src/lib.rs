//! Verified building blocks for small asynchronous programs.
//!
//! Every module holds the decisions of one program part as plain functions and
//! step machines: they take what an await, a read or a receive gave back and say
//! what is to be done next. The program around them performs the input and output.

pub mod connector;
pub mod coroutine;
pub mod data_file;
pub mod data_map;
pub mod decimal;
pub mod executor;
pub mod fibonacci;
pub mod heartbeat;
pub mod key_value;
pub mod messages;
pub mod pool;
pub mod queue;
pub mod router;
pub mod runtime;
pub mod server;
pub mod service;
pub mod stream;
pub mod writer;
