//! Prepares a disk image for a virtual machine: decides from a file's
//! extension how it is packed, unpacks it, names the result, and tells the
//! caller which step of the conversion comes next.

pub mod codec;
pub mod decompress;
pub mod error;
pub mod format;
pub mod path;
pub mod run;
