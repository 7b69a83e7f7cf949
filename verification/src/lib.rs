//! A verified bring-up sequencer for a block-storage peripheral.
//!
//! The library models the ordered lifecycle of bringing an SD/MMC-style
//! card into service: configure the bus, mount a FAT-compatible filesystem
//! over the resulting handle, run a read-after-write smoke test, and tear
//! everything down again on every exit path. The hardware itself stays
//! outside: the sequencer is driven by plain observations of what the
//! controller, the card and the filesystem did, and every decision the
//! sequencer takes is verified.

pub mod bus;
pub mod controller;
pub mod device;
pub mod display;
pub mod errors;
pub mod ledger;
pub mod mounter;
pub mod sequencer;
pub mod smoke;
