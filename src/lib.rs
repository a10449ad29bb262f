//! Harvesting of the images that one HTML page references: URL resolution,
//! content sniffing, file naming, the per-image download state machine and
//! the batch scheduler that bounds how many images are in flight.
pub mod sniff;
pub mod naming;
pub mod resolve;
pub mod page;
pub mod worker;
pub mod batch;
