//! An embeddable script host kernel: module classification and transpilation,
//! and the bookkeeping of cancellable network resources behind integer handles.

pub mod error;
pub mod loader;
pub mod resources;
