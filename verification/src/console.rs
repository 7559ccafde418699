//! System console interfaces.
//!
//! The active console is a single registered object that the embedder owns
//! and swaps once the UART driver is up; before that, the null console
//! swallows everything.

use vstd::prelude::*;

pub mod null_console;

verus! {

/// Console write functions.
pub trait Write {
    /// Write a single character.
    fn write_char(&mut self, c: char);

    /// Write a string.
    fn write_str(&mut self, s: &str);
}

/// Console read functions.
pub trait Read {
    /// Read a single character.
    fn read_char(&mut self) -> char {
        ' '
    }

    /// Clear the receive buffer.
    fn clear_rx(&mut self);
}

/// Console statistics.
pub trait Statistics {
    /// The number of characters written.
    fn chars_written(&self) -> usize {
        0
    }

    /// The number of characters read.
    fn chars_read(&self) -> usize {
        0
    }
}

/// Trait alias for a full-fledged console.
pub trait All: Write + Read + Statistics {

}

} // verus!
