//! Places and ranges in a text document.

use vstd::prelude::*;

verus! {

/// A place in a document: its line, the character in that line, and the
/// byte it starts at.
#[derive(Clone, Copy, Debug, PartialEq, Eq, Structural, Hash)]
pub struct Position {
    line: usize,
    character: usize,
    byte_offset: usize,
}

impl Position {
    pub closed spec fn spec_line(self) -> usize {
        self.line
    }

    pub closed spec fn spec_column(self) -> usize {
        self.character
    }

    pub closed spec fn spec_byte_offset(self) -> usize {
        self.byte_offset
    }

    pub fn new(line: usize, character: usize, byte_offset: usize) -> (position: Self)
        ensures
            position.spec_line() == line,
            position.spec_column() == character,
            position.spec_byte_offset() == byte_offset,
    {
        Self { line, character, byte_offset }
    }

    #[verifier::when_used_as_spec(spec_line)]
    pub fn line(self) -> (line: usize)
        ensures
            line == self.spec_line(),
    {
        self.line
    }

    #[verifier::when_used_as_spec(spec_column)]
    pub fn column(self) -> (column: usize)
        ensures
            column == self.spec_column(),
    {
        self.character
    }

    #[verifier::when_used_as_spec(spec_byte_offset)]
    pub fn to_byte_offset(self) -> (byte_offset: usize)
        ensures
            byte_offset == self.spec_byte_offset(),
    {
        self.byte_offset
    }

    /// A position is what its three numbers say.
    pub proof fn lemma_numbers_determine(a: Self, b: Self)
        requires
            a.spec_line() == b.spec_line(),
            a.spec_column() == b.spec_column(),
            a.spec_byte_offset() == b.spec_byte_offset(),
        ensures
            a == b,
    {
    }
}

/// The part of a document between two places.
#[derive(Clone, Copy, Debug, PartialEq, Eq, Structural, Hash)]
pub struct Range {
    start_position: Position,
    end_position: Position,
}

impl Range {
    pub closed spec fn spec_start(self) -> Position {
        self.start_position
    }

    pub closed spec fn spec_end(self) -> Position {
        self.end_position
    }

    pub fn new(start_position: Position, end_position: Position) -> (range: Self)
        ensures
            range.spec_start() == start_position,
            range.spec_end() == end_position,
    {
        Self { start_position, end_position }
    }

    #[verifier::when_used_as_spec(spec_start)]
    pub fn start_position(self) -> (start: Position)
        ensures
            start == self.spec_start(),
    {
        self.start_position
    }

    #[verifier::when_used_as_spec(spec_end)]
    pub fn end_position(self) -> (end: Position)
        ensures
            end == self.spec_end(),
    {
        self.end_position
    }

    /// A range is what its two ends say.
    pub proof fn lemma_ends_determine(a: Self, b: Self)
        requires
            a.spec_start() == b.spec_start(),
            a.spec_end() == b.spec_end(),
        ensures
            a == b,
    {
    }
}

} // verus!
