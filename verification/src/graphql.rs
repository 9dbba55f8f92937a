//! The schema and the data it is bound to.

pub mod explorer;
pub mod response;
pub mod schema;
