//! A console that does nothing.

use vstd::prelude::*;
use crate::console::All;
use crate::console::Read;
use crate::console::Statistics;
use crate::console::Write;

verus! {

/// The console every kernel starts with: it swallows writes and has nothing
/// to read.
pub struct NullConsole;

impl Write for NullConsole {
    fn write_char(&mut self, _c: char) {
    }

    fn write_str(&mut self, _s: &str) {
    }
}

impl Read for NullConsole {
    fn clear_rx(&mut self) {
    }
}

impl Statistics for NullConsole {

}

impl All for NullConsole {

}

} // verus!
