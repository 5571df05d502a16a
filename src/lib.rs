//! A small Markdown document viewer core: startup argument handling, the
//! Markdown-to-HTML conversion contract, and the window-readiness sequencer.
pub mod args;
pub mod render;
pub mod lifecycle;

use vstd::prelude::*;

verus! {

} // verus!
