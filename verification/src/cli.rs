//! The launch options of the emulator, as plain data. A host front end parses
//! its command line into this; only the program path matters to the core, the
//! rest steers the window.

use vstd::prelude::*;

verus! {

pub struct Cli {
    /// Path of the program file (decompressed if it ends in .gz).
    pub program: String,
    /// Initial window scaling factor.
    pub scaling: i32,
    /// Show the cursor on the window.
    pub cursor: bool,
    /// Start in fullscreen mode.
    pub fullscreen: bool,
    /// Show performance metrics and debug info.
    pub verbose: bool,
    /// Use linear filtering instead of pixel-perfect scaling.
    pub linear_filtering: bool,
}

} // verus!
