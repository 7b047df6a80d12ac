//! Showing the macro expansion of a crate: the toolchain command, which of its
//! diagnostics to show, the choice of items from the expanded source, the
//! crate-root token that has to be hidden from the formatter, the retry of the
//! formatter under another edition, and the color policy of the display.
use vstd::prelude::*;

pub mod cmdline;
pub mod color;
pub mod diag;
pub mod pipeline;
pub mod placeholder;
pub mod probe;
pub mod select;
pub mod text;

verus! {

} // verus!
