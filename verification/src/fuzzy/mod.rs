//! Fuzzy matching of words.

pub mod laws;
pub mod soundex;
