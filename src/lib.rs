//! Self-extracting executables: an executable is compressed and prefixed with
//! a shell stub that, when run, decompresses and executes the original.
//!
//! A packed file is the stub, zero-padded to a fixed header size, then an
//! optional embedded decompressor, then the compressed payload. The stub states
//! the offsets as decimal text, and `unpack` reads them back.
pub mod bytes;
pub mod text;
pub mod algo;
pub mod layout;
pub mod registry;
pub mod stub;
pub mod gate;
pub mod steps;
pub mod unpack;
pub mod pack;
pub mod laws;
