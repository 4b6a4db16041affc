//! The interactive input buffer.
//!
//! A second buffer over the process's input stream, kept alongside the
//! tokenizer's with its original private bookkeeping. The host reads one raw
//! line at a time and stores it here; storing applies the canonical
//! line-ending policy (exactly one trailing terminator removed).

use crate::sql::tokenizer::{spec_strip_terminator, strip_terminator};
use vstd::prelude::*;
use vstd::string::*;

verus! {

/// An input buffer holding the most recently read line of raw input.
pub struct InputBuffer {
    /// The most recently stored line, `None` until one is stored.
    pub buffer: Option<String>,
    /// The length in characters of the stored line, `0` while `buffer` is
    /// `None`.
    pub input_length: usize,
}

impl InputBuffer {
    /// Well-formedness: the recorded input length matches the stored line.
    pub open spec fn wf(self) -> bool {
        match self.buffer {
            None => self.input_length == 0,
            Some(line) => self.input_length == line@.len(),
        }
    }

    /// Creates a new instance of the input buffer: no line has been read.
    pub fn new() -> (r: Self)
        ensures
            r.buffer is None,
            r.wf(),
    {
        InputBuffer { buffer: None, input_length: 0 }
    }

    /// Records one raw line read by the host from the input stream,
    /// stripping the line terminator before storing it.
    pub fn store_line(&mut self, line: &str)
        ensures
            final(self).buffer matches Some(stored) && stored@ == spec_strip_terminator(line@),
            final(self).wf(),
    {
        let stored = strip_terminator(line);
        self.input_length = stored.as_str().unicode_len();
        self.buffer = Some(stored);
    }
}

impl Default for InputBuffer {
    /// An empty buffer, the same as `InputBuffer::new`.
    fn default() -> (r: Self)
        ensures
            r.buffer is None,
            r.wf(),
    {
        Self::new()
    }
}

} // verus!
