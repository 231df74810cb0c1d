//! USB Mass Storage (Bulk-Only Transport and the SCSI transparent command set).
//!
//! The device says what is to be done on its endpoints and on the card, and takes
//! the outcome; it owns the card's contents only through its read cache.

pub mod cache;
pub mod scsi;
pub mod device;
pub mod laws;
pub mod writing;
pub mod reading;
pub mod host;
