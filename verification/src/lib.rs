//! A simulator of a small 8-bit von Neumann computer: a CPU with six
//! general-purpose registers and four special registers, a flat
//! byte-addressable memory, and a fetch-decode-execute cycle over a
//! sixteen-opcode instruction set.
//!
//! The machine is modelled mathematically in [`state`] and [`semantics`]:
//! every executable operation on the [`computer::Computer`] is proved to
//! agree with that model, and the laws the instruction set obeys are stated
//! and proved in [`laws`] and [`decode`]. Around the core, [`dump`] renders
//! the machine state for display and [`literal`] reads the numeric
//! literals of a program listing.

pub mod computer;
pub mod decode;
pub mod dump;
pub mod error;
pub mod laws;
pub mod literal;
pub mod semantics;
pub mod state;
