//! What the shell shows to its user.

pub mod printer;
