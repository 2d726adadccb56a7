//! Decoder for the fixed 64-byte header of a 64-bit ELF object file.
//!
//! A buffer is decoded into a validated [`ElfHeader`], whose first part is
//! the identification block [`EIdent`]. Every decoded record and every
//! enumerated field renders itself as text.

pub mod error;
pub mod header;
pub mod ident;
pub mod little_endian;
pub mod text;

pub use error::ElfParseError;
pub use header::ElfHeader;
pub use ident::EIdent;
