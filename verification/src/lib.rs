//! Endian-tagged integers and a device-matching, driver-lifetime adapter for a PCI-style bus.

pub mod driver;
pub mod endian;
pub mod error;
pub mod pci;
