//! A minimal swap contract: message types for the host chain and the three
//! entry-point dispatch functions (instantiate, execute, query), each proved
//! to build exactly the response it promises.

pub mod contract;
pub mod error;
pub mod msg;
pub mod numeral;
pub mod response;
