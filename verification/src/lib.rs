//! A DNS load generator's core: the query wire encoding, the statistics
//! register, and the dispatch engine that decides when queries may start.

pub mod benchmark;
pub mod buffer;
pub mod cli;
pub mod clock;
pub mod dispatch;
pub mod dns;
pub mod random;
pub mod transport;
