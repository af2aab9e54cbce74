//! The built-in demonstration program.

use vstd::prelude::*;

verus! {

/// Where execution of the demonstration program starts: right after its
/// data region.
pub const HELLO_ENTRY: u16 = 15;

/// The demonstration program, to be loaded at address 0.
///
/// Words 0 to 13 hold the characters of a greeting and word 14 the zero
/// that ends it. The code from word 15 on walks a pointer kept at address
/// 0x7f along the text: it copies the character under the pointer to
/// address 0x80, moves the pointer on, emits the character and loops until
/// the character it emitted was the zero.
pub const HELLO_IMAGE: [u16; 35] = [
    0x0048, 0x0065, 0x006c, 0x006c, 0x006f, 0x002c, 0x0020, 0x0077, 0x006f,
    0x0072, 0x006c, 0x0064, 0x0021, 0x000a, 0x0000, 0x1401, 0x007f, 0x0000,
    0x1200, 0x007f, 0x0601, 0x0080, 0x2502, 0x007f, 0x0001, 0x007f, 0x2104,
    0x0000, 0x0080, 0x1003, 0x0021, 0x2003, 0x0011, 0x0000, 0x0005,
];

} // verus!
