//! Where in the source a token, a node or a diagnostic comes from.

use vstd::prelude::*;

verus! {

/// A span of bytes in one source file.
#[derive(Clone, Copy, Debug, PartialEq, Eq, Hash, Structural)]
pub struct Location {
    /// The file, by its number.
    pub file_id: u32,
    /// The offset of the first byte.
    pub start: u32,
    /// The offset after the last byte.
    pub end: u32,
}

impl Default for Location {
    /// The empty span at the start of file 0.
    fn default() -> (r: Location)
        ensures
            r == (Location { file_id: 0, start: 0, end: 0 }),
    {
        Location { file_id: 0, start: 0, end: 0 }
    }
}

/// A value together with the place in the source that it comes from.
#[derive(Clone, Debug, PartialEq)]
pub struct Locatable<T> {
    pub data: T,
    pub location: Location,
}

impl Location {
    /// Attaches this location to a value.
    pub fn with<T>(self, data: T) -> (r: Locatable<T>)
        ensures
            r.data == data,
            r.location == self,
    {
        Locatable { data, location: self }
    }
}

impl<T> Locatable<T> {
    /// A value at a location.
    pub fn new(data: T, location: Location) -> (r: Locatable<T>)
        ensures
            r.data == data,
            r.location == location,
    {
        Locatable { data, location }
    }

    /// Applies a function to the value and keeps the location.
    pub fn map<S, F: FnOnce(T) -> S>(self, f: F) -> (r: Locatable<S>)
        requires
            f.requires((self.data,)),
        ensures
            f.ensures((self.data,), r.data),
            r.location == self.location,
    {
        Locatable { data: f(self.data), location: self.location }
    }
}

/// The number of line ends among the first `offset` bytes of `source`.
pub open spec fn line_ends_before(source: Seq<u8>, offset: int) -> nat
    decreases offset,
{
    if offset <= 0 || offset > source.len() {
        0
    } else if source[offset - 1] == 0x0a {
        line_ends_before(source, offset - 1) + 1
    } else {
        line_ends_before(source, offset - 1)
    }
}

/// The offset at which the line that holds `offset` starts: after the last line end
/// before `offset`, or 0 if there is none.
pub open spec fn line_start(source: Seq<u8>, offset: int) -> int
    decreases offset,
{
    if offset <= 0 || offset > source.len() {
        0
    } else if source[offset - 1] == 0x0a {
        offset
    } else {
        line_start(source, offset - 1)
    }
}

/// A position in a source file as a reader counts it: both numbers start at 1, and
/// the column counts bytes.
#[derive(Clone, Copy, Debug, PartialEq, Eq, Structural)]
pub struct LineColumn {
    pub line: usize,
    pub column: usize,
}

/// The line and column of the byte at `offset`.
pub open spec fn line_column_of(source: Seq<u8>, offset: int) -> LineColumn {
    LineColumn {
        line: (line_ends_before(source, offset) + 1) as usize,
        column: (offset - line_start(source, offset) + 1) as usize,
    }
}

proof fn lemma_line_bounds(source: Seq<u8>, offset: int)
    requires
        0 <= offset <= source.len(),
    ensures
        line_ends_before(source, offset) <= offset,
        0 <= line_start(source, offset) <= offset,
    decreases offset,
{
    if offset > 0 {
        lemma_line_bounds(source, offset - 1);
    }
}

/// Finds the line and column of an offset into a source text. `None` if the offset lies
/// beyond the end of the text, or if the text is so long that a number does not fit.
pub fn line_column(source: &[u8], offset: usize) -> (r: Option<LineColumn>)
    ensures
        r == (if offset <= source@.len() && offset < usize::MAX {
            Some(line_column_of(source@, offset as int))
        } else {
            None
        }),
{
    if offset > source.len() || offset == usize::MAX {
        return None;
    }
    let mut line: usize = 1;
    let mut start: usize = 0;
    let mut i: usize = 0;
    while i < offset
        invariant
            i <= offset <= source@.len(),
            offset < usize::MAX,
            line == line_ends_before(source@, i as int) + 1,
            start == line_start(source@, i as int),
            start <= i,
        decreases offset - i,
    {
        proof {
            lemma_line_bounds(source@, i as int + 1);
        }
        if source[i] == 0x0a {
            line += 1;
            start = i + 1;
        }
        i += 1;
    }
    Some(LineColumn { line, column: offset - start + 1 })
}

} // verus!
