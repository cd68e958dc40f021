//! Lifecycle of operator-authored mapping functions: naming, transport
//! encoding of code, the draft/published record and the decisions of every
//! lifecycle operation.

pub mod clock;
pub mod codec;
pub mod laws;
pub mod lifecycle;
pub mod name;
pub mod record;
pub mod store;
