//! The pattern generators and the mixer that combines their sequences.

pub mod common;
pub mod euclidean;
pub mod markov;
pub mod mixer;
