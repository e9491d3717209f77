//! Chain-agnostic model of the base chain observed by an overlay chain:
//! genesis parameters, proof-of-transfer economics, the transaction and
//! block abstraction, the peer-handshake view and the error taxonomy.

pub mod types;
pub mod params;
pub mod pox;
pub mod chain;
pub mod view;
mod outside;
pub mod error;
