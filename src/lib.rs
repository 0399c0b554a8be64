pub mod tree;
pub mod curry;
pub mod merkle;
pub mod condition;
pub mod filter;
pub mod puzzles;
pub mod delegation;
pub mod encode;
