//! Decoding of compressed game-asset containers, the archive directories they
//! wrap, and the endian-tagged model headers stored inside archive entries.
pub mod endian;
pub mod error;
pub mod dcx;
pub mod archive;
pub mod path;
pub mod dummy;
pub mod flver;
