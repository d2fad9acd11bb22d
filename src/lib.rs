//! Request-generation core of a load and protocol-fuzzing engine: payload
//! catalog, traffic shaping, dispatch, transport planning, TLS profile
//! selection, worker bookkeeping and log sanitising, each with a contract.
pub mod buffer;
pub mod chance;
pub mod clock;
pub mod config;
pub mod crypto;
pub mod engine;
pub mod fuzz;
pub mod proxy;
pub mod rotation;
pub mod sanitize;
pub mod state;
pub mod task;
pub mod text;
pub mod tls;
pub mod traffic;
pub mod transport;
pub mod worker;
