//! Zero-based text positions and ranges.

use vstd::prelude::*;

verus! {

/// A zero-based `(line, character)` pair; `character` counts characters from
/// the start of the line.
#[derive(Clone, Copy, Debug, PartialEq, Eq, Structural)]
pub struct Position {
    pub line: u32,
    pub character: u32,
}

impl Position {
    /// Puts a value together from its parts.
    pub fn new(line: u32, character: u32) -> (r: Position)
        ensures
            r == (Position { line, character }),
    {
        Position { line, character }
    }

    /// Lexicographic order on `(line, character)`.
    pub open spec fn le(self, other: Position) -> bool {
        self.line < other.line || (self.line == other.line && self.character <= other.character)
    }
}

impl Default for Position {
    fn default() -> (r: Position)
        ensures
            r == (Position { line: 0, character: 0 }),
    {
        Position { line: 0, character: 0 }
    }
}

/// A span of text from `start` to `end`.
#[derive(Clone, Copy, Debug, PartialEq, Eq, Structural)]
pub struct Range {
    pub start: Position,
    pub end: Position,
}

impl Range {
    /// Puts a value together from its parts.
    pub fn new(start: Position, end: Position) -> (r: Range)
        ensures
            r == (Range { start, end }),
    {
        Range { start, end }
    }

    /// The range does not end before it starts.
    pub open spec fn ordered(self) -> bool {
        self.start.le(self.end)
    }
}

impl Default for Range {
    fn default() -> (r: Range)
        ensures
            r == (Range {
                start: Position { line: 0, character: 0 },
                end: Position { line: 0, character: 0 },
            }),
    {
        Range { start: Position { line: 0, character: 0 }, end: Position { line: 0, character: 0 } }
    }
}

/// Whether `position` lies on `range`, both ends included: a cursor that
/// sits directly behind the last character still touches the range.
pub open spec fn range_contains(range: Range, position: Position) -> bool {
    if range.start.line < position.line && position.line < range.end.line {
        true
    } else if position.line == range.start.line && position.line == range.end.line {
        range.start.character <= position.character && position.character <= range.end.character
    } else if position.line == range.start.line {
        range.start.character <= position.character
    } else if position.line == range.end.line {
        position.character <= range.end.character
    } else {
        false
    }
}

/// Whether `range` ends strictly before the character that `position`
/// follows.
pub open spec fn range_preceeds(range: Range, position: Position) -> bool {
    position.character != 0 && (position.line > range.end.line || (position.line
        == range.end.line && position.character - 1 >= range.end.character))
}

/// Position queries on a range.
pub trait ExtraRange {
    spec fn contains_position_spec(&self, position: Position) -> bool;

    spec fn preceeds_position_spec(&self, position: Position) -> bool;

    fn contains_position(&self, position: Position) -> (r: bool)
        ensures
            r == self.contains_position_spec(position),
    ;

    fn preceeds_position(&self, position: Position) -> (r: bool)
        ensures
            r == self.preceeds_position_spec(position),
    ;
}

impl ExtraRange for Range {
    open spec fn contains_position_spec(&self, position: Position) -> bool {
        range_contains(*self, position)
    }

    open spec fn preceeds_position_spec(&self, position: Position) -> bool {
        range_preceeds(*self, position)
    }

    fn contains_position(&self, position: Position) -> (r: bool) {
        if position.line > self.start.line && position.line < self.end.line {
            return true;
        }
        let after_start = position.character >= self.start.character;
        let before_end = position.character <= self.end.character;
        let on_start_line = position.line == self.start.line;
        let on_end_line = position.line == self.end.line;
        if on_start_line && on_end_line {
            return after_start && before_end;
        }
        if on_start_line {
            return after_start;
        }
        if on_end_line {
            return before_end;
        }
        false
    }

    fn preceeds_position(&self, position: Position) -> (r: bool) {
        if position.character == 0 {
            return false;
        }
        position.line > self.end.line || (position.line == self.end.line && position.character - 1
            >= self.end.character)
    }
}

/// On a range that does not end before it starts, containment is the
/// lexicographic interval from `start` to `end`, ends included.
pub proof fn lemma_contains_is_interval(range: Range, position: Position)
    requires
        range.ordered(),
    ensures
        range_contains(range, position) <==> (range.start.le(position) && position.le(range.end)),
{
}

/// A range that precedes a position does not contain it, provided the range
/// is ordered.
pub proof fn lemma_preceeds_excludes(range: Range, position: Position)
    requires
        range.ordered(),
        range_preceeds(range, position),
    ensures
        !range_contains(range, position),
{
}

} // verus!
