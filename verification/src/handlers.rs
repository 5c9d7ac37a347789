//! The six operations, from request to answer.
//!
//! Each one checks that the required fields are there, decodes the
//! identifiers in a fixed order, does its work and shapes the answer. The
//! first check that fails decides the error; nothing partial is returned.

pub mod message;
pub mod token;
pub mod transfer;
