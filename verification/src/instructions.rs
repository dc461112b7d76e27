//! The operation handlers. Each one works on the records the host platform
//! has loaded for the call, performs every check of the validation pipeline
//! before any write, and on failure leaves every record exactly as it was.

pub mod deposit;
pub mod initialize;
pub mod validate;
pub mod whitelist;
pub mod withdraw;
