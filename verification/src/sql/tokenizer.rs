//! Input line buffering and the small amount of text handling that the
//! classifier needs.
//!
//! The buffer owns the most recently read line. Reading from the input stream
//! itself is the host's business; the buffer only records a line once it has
//! been read, applying the canonical line-ending policy: exactly one trailing
//! line terminator (`\n`, or `\r\n`) is removed, and nothing else is trimmed.

use vstd::prelude::*;
use vstd::string::*;

verus! {

/// The characters of `line` with one trailing line terminator removed:
/// a final `'\n'` is dropped, and a `'\r'` directly before it as well.
/// No other whitespace is touched.
pub open spec fn spec_strip_terminator(line: Seq<char>) -> Seq<char> {
    if line.len() > 0 && line[line.len() - 1] == '\n' {
        let without_nl = line.subrange(0, line.len() - 1);
        if without_nl.len() > 0 && without_nl[without_nl.len() - 1] == '\r' {
            without_nl.subrange(0, without_nl.len() - 1)
        } else {
            without_nl
        }
    } else {
        line
    }
}

/// True when `prefix` is an initial segment of `line`.
pub open spec fn spec_has_prefix(line: Seq<char>, prefix: Seq<char>) -> bool {
    prefix.len() <= line.len() && line.subrange(0, prefix.len() as int) == prefix
}

/// Character-for-character string equality.
pub fn str_eq(a: &str, b: &str) -> (r: bool)
    ensures
        r == (a@ == b@),
{
    let a_len = a.unicode_len();
    let b_len = b.unicode_len();
    if a_len != b_len {
        return false;
    }
    let mut i: usize = 0;
    while i < a_len
        invariant
            a_len == a@.len(),
            b_len == b@.len(),
            a_len == b_len,
            i <= a_len,
            forall|j: int| 0 <= j < i ==> a@[j] == b@[j],
        decreases a_len - i,
    {
        if a.get_char(i) != b.get_char(i) {
            return false;
        }
        i = i + 1;
    }
    proof {
        assert(a@ =~= b@);
    }
    true
}

/// Whether `line` starts with `prefix`, comparing character by character.
pub fn str_has_prefix(line: &str, prefix: &str) -> (r: bool)
    ensures
        r == spec_has_prefix(line@, prefix@),
{
    let line_len = line.unicode_len();
    let prefix_len = prefix.unicode_len();
    if prefix_len > line_len {
        return false;
    }
    let mut i: usize = 0;
    while i < prefix_len
        invariant
            line_len == line@.len(),
            prefix_len == prefix@.len(),
            prefix_len <= line_len,
            i <= prefix_len,
            forall|j: int| 0 <= j < i ==> line@[j] == prefix@[j],
        decreases prefix_len - i,
    {
        if line.get_char(i) != prefix.get_char(i) {
            proof {
                if spec_has_prefix(line@, prefix@) {
                    assert(line@.subrange(0, prefix@.len() as int)[i as int] == prefix@[i as int]);
                }
            }
            return false;
        }
        i = i + 1;
    }
    proof {
        assert(line@.subrange(0, prefix@.len() as int) =~= prefix@);
    }
    true
}

/// A copy of `line` with the canonical line-ending policy applied: one
/// trailing terminator removed, everything else kept.
pub fn strip_terminator(line: &str) -> (r: String)
    ensures
        r@ == spec_strip_terminator(line@),
{
    let len = line.unicode_len();
    if len > 0 && line.get_char(len - 1) == '\n' {
        let without_nl = line.substring_char(0, len - 1);
        if len > 1 && without_nl.get_char(len - 2) == '\r' {
            let r = without_nl.substring_char(0, len - 2).to_owned();
            proof {
                assert(line@.subrange(0, len - 1).subrange(0, len - 2) =~= r@);
            }
            r
        } else {
            without_nl.to_owned()
        }
    } else {
        line.to_owned()
    }
}

/// The input line buffer: holds the most recently stored line, if any, and
/// its length in characters.
pub struct InputBuffer {
    /// The most recently stored line, already stripped of its terminator;
    /// `None` until a line has been stored.
    pub buffer: Option<String>,
    /// The length in characters of the stored line, `0` while `buffer` is
    /// `None`.
    pub buffer_length: usize,
}

impl InputBuffer {
    /// Well-formedness: the recorded length matches the stored line.
    pub open spec fn wf(self) -> bool {
        match self.buffer {
            None => self.buffer_length == 0,
            Some(line) => self.buffer_length == line@.len(),
        }
    }

    /// Creates an empty buffer: no line has been read yet.
    pub fn new() -> (r: Self)
        ensures
            r.buffer is None,
            r.wf(),
    {
        Self::default()
    }

    /// Records one raw line as read from the input stream, applying the
    /// line-ending policy before storing it.
    pub fn store_line(&mut self, line: &str)
        ensures
            final(self).buffer matches Some(stored) && stored@ == spec_strip_terminator(line@),
            final(self).wf(),
    {
        let stored = strip_terminator(line);
        self.buffer_length = stored.as_str().unicode_len();
        self.buffer = Some(stored);
    }
}

impl Default for InputBuffer {
    /// An empty buffer, the same as `InputBuffer::new`.
    fn default() -> (r: Self)
        ensures
            r.buffer is None,
            r.wf(),
    {
        InputBuffer { buffer: None, buffer_length: 0 }
    }
}

} // verus!
