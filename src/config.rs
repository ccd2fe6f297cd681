use vstd::prelude::*;

verus! {

/// Printable columns per row of the default canvas.
pub const CHAR_WIDTH: usize = 42;

/// Rows of the default canvas.
pub const CHAR_HEIGHT: usize = 10;

/// Capacity of the default text buffer.
pub const MEMORY_SIZE: usize = 0x1000;

/// Reserved character code that marks a line break.
pub const NEWLINE: u8 = 0xff;

} // verus!
