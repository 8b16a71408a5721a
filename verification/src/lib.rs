//! Core of a minimal connection server: a fixed-size worker pool with a
//! drain-guaranteeing shutdown, a literal route table, and the exact wire
//! format of the one-line responses it serves.

pub mod http;
pub mod pool;
