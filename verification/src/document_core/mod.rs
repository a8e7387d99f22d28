//! Document-core builders.

pub mod builders;
