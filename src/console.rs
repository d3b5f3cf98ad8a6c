//! Console capabilities: output, input and usage statistics.
use vstd::prelude::*;

verus! {

/// Character output.
pub trait Write {
    /// Emits one character.
    fn write_char(&mut self, c: char);
}

/// Character input.
pub trait Read: Sized {
    /// Blocks until a character is available and returns it. A console without
    /// input returns a space.
    fn read_char(&mut self) -> (r: char)
        default_ensures
            r == ' ',
            *final(self) == *old(self),
    {
        ' '
    }
}

/// Usage statistics.
pub trait Statistics {
    /// Characters written so far; a console that does not count reports zero.
    fn chars_written(&self) -> (r: usize)
        default_ensures
            r == 0,
    {
        0
    }

    /// Characters read so far; a console that does not count reports zero.
    fn chars_read(&self) -> (r: usize)
        default_ensures
            r == 0,
    {
        0
    }
}

/// Output, input and statistics together.
pub trait All: Write + Read + Statistics {}

} // verus!
