//! Parameters of the Dirichlet distribution, validated over the bit
//! patterns of IEEE-754 binary64 values.

pub mod dirichlet;
pub mod ieee;

pub use dirichlet::{Dirichlet, Error};
