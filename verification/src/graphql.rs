//! The operations of the API and the values they exchange.

pub mod lifecycle;
pub mod mutations;
pub mod objects;
pub mod queries;
pub mod step;
