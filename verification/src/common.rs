use vstd::prelude::*;

verus! {

/// Physical address at which the peripheral registers start.
pub const IO_BASE: usize = 0xFE00_0000;

/// Marker of a pin that has been named but not yet configured.
pub struct Uninitialized;

/// Marker of a pin configured as an input.
pub struct Input;

/// Marker of a pin configured as an output.
pub struct Output;

/// Marker of a pin handed over to one of its alternative functions.
pub struct Alt;

} // verus!
