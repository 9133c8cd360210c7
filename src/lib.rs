//! Bootstrap core of a 64-bit kernel: interrupt descriptors and the
//! descriptor table, fault decoding, the legacy interrupt controller's
//! command sequences, the early page-table hierarchy and its walker.

pub mod interrupts;
pub mod memory;
pub mod pic8259;
pub mod vga_buffer;
