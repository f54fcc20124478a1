//! A byte stream over one network connection, plain or encrypted after an
//! in-place upgrade, and the decisions that open it.
pub mod address;
pub mod error;
pub mod establish;
pub mod loopback;
pub mod stream;
pub mod tls;
