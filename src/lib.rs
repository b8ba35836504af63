//! Raw memory arithmetic over typed addresses and address+length regions.
//!
//! Memory is a block of elements (a `Vec<T>`) that the caller owns and hands
//! to every operation that reads or writes it. An address is the position of
//! an element within such a block, and a region is an address together with a
//! declared element count. Computing an address or a region checks nothing;
//! every access states, as a precondition, which positions it touches.

pub mod memory;
pub mod rawptr;
pub mod rawslice;
pub mod laws;
