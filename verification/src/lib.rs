//! Reading an SD/MMC card over SPI, and listing a FAT directory on it.
//!
//! The crate holds the decisions only: it never touches a bus. The card side
//! is a set of small state machines that tell the host which byte to exchange
//! next and take the byte that came back; the filesystem side is a parser of
//! 512-byte sectors and a cursor that tells the host which sector it needs.

pub mod bytes;
pub mod card;
pub mod chain;
pub mod command;
pub mod cursor;
pub mod entry;
pub mod error;
pub mod listing;
pub mod mount;
pub mod partition;
pub mod sector;
pub mod time;
pub mod transaction;
pub mod volume;
