//! The core of a small query service: one typed schema over an in-memory
//! collection of photos, with every executable function verified. A
//! query engine outside this library executes documents against it.

pub mod graphql;
