//! Arguments and connection data of the DMA-engine benchmark.
pub mod args;
pub mod connection;
