//! Script assets for a host simulation loop: loading Fusabi source or
//! precompiled bytecode as a shareable asset, and driving each loaded
//! asset to a single successful execution.
//!
//! The compiler, the serializer and the virtual machine are run by the
//! host, between the steps that this library decides and records. The
//! parser, the decoder and the rendering of a value, which are called from
//! here, go as deep as their input nests: a host that loads files it does
//! not trust should bound their size.

pub mod asset;
pub mod codec;
pub mod frontend;
pub mod loader;
pub mod runner;
pub mod vm;
pub mod prelude;
