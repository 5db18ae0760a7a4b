//! A hash-locked, time-boxed token escrow: instruction decoding, record
//! layouts, fee arithmetic and the escrow and configuration state machines,
//! stated over plain values and proved.

pub mod error;
pub mod codec;
pub mod state;
pub mod address;
pub mod token;
pub mod fee;
pub mod accounts;
pub mod instruction;
pub mod escrow;
pub mod config;
pub mod laws;
