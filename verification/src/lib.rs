//! Semantic core of a language server for a C-like shader language: a lexer
//! and recursive-descent parser that build a syntax tree with source ranges,
//! and a scope-aware type checker that reports diagnostics and answers
//! completion and hover queries.
//!
//! Every exec function states its behaviour over mathematical models
//! (`Seq<char>` for text, view types for trees and for the symbol table).

pub mod completion;
pub mod interpreter;
pub mod lexer;
pub mod memory;
pub mod nodes;
pub mod parser;
pub mod position;
pub mod source_code;
pub mod text;

use vstd::prelude::*;
use vstd::string::*;
use crate::interpreter::top_level_interpreter::{after_top_levels, evaluate_all, top_level_ok};
use crate::lexer::token_stream::{SpecTokenStream, TokenStream};
use crate::memory::Memory;
use crate::nodes::top_level_nodes::{top_levels_view, SpecTopLevel, TopLevelNode};
use crate::parser::top_level_parser::{p_top_level, parse_top_level};
use crate::position::Position;
use crate::source_code::{
    line_starts, offset_of_position, saturate_u32, saturate_usize, text_after_change,
    SourceDocument, TextChange,
};
use crate::text::to_chars;

verus! {

/// The declarations of a document from the current token on, added to
/// those in `done`: what is no declaration is passed over, and only the end
/// of the input stops the reading.
pub open spec fn p_tokens(s: SpecTokenStream, depth: nat, done: Seq<SpecTopLevel>) -> (
    SpecTokenStream,
    Seq<SpecTopLevel>,
)
    decreases s.remaining(),
{
    let (s1, r) = p_top_level(s, depth);
    match r {
        Err(_) => (s1, done),
        Ok(node) => {
            let grown = match node {
                Some(n) => done.push(n),
                None => done,
            };
            if s1.remaining() < s.remaining() {
                p_tokens(s1, depth, grown)
            } else {
                (s1, grown)
            }
        },
    }
}

/// Whether every declaration of a list can be evaluated.
pub open spec fn all_ok(nodes: Seq<TopLevelNode>) -> bool {
    forall|i: int| 0 <= i < nodes.len() ==> top_level_ok(#[trigger] nodes[i]@)
}

/// Reads all declarations of a document. A declaration that cannot be read
/// is on record and left out; the reading goes on behind it, and stops
/// only when the whole input has been read.
pub fn parse_tokens(stream: &mut TokenStream) -> (nodes: Vec<TopLevelNode>)
    ensures
        (final(stream)@, top_levels_view(nodes@)) == p_tokens(
            old(stream)@,
            old(stream).depth as nat,
            Seq::empty(),
        ),
        final(stream).depth == old(stream).depth,
        old(stream)@.leads_to(final(stream)@),
        final(stream)@.current() is Err,
        all_ok(nodes@),
{
    let ghost depth = stream.depth as nat;
    let mut nodes: Vec<TopLevelNode> = Vec::new();
    assert(top_levels_view(nodes@) =~= Seq::empty());
    loop
        invariant
            stream.depth == old(stream).depth,
            depth == old(stream).depth,
            old(stream)@.leads_to(stream@),
            all_ok(nodes@),
            p_tokens(old(stream)@, depth, Seq::empty()) == p_tokens(
                stream@,
                depth,
                top_levels_view(nodes@),
            ),
        decreases stream@.remaining(),
    {
        let ghost before = stream@;
        let ghost views = top_levels_view(nodes@);
        match parse_top_level(stream) {
            Ok(maybe_node) => {
                if let Some(node) = maybe_node {
                    nodes.push(node);
                    assert(top_levels_view(nodes@) =~= views.push(node@));
                }
            },
            _ => {
                return nodes;
            },
        }
        assert(stream@.remaining() < before.remaining());
    }
}

/// Evaluates the declarations of a document in order.
pub fn evaluate_tree(memory: &mut Memory, top_levels: Vec<TopLevelNode>)
    requires
        all_ok(top_levels@),
    ensures
        final(memory)@ == after_top_levels(old(memory)@, top_levels_view(top_levels@)),
{
    evaluate_all(memory, top_levels);
}

/// Applies an edit to a text.
pub fn apply_change(source: &mut String, change: &TextChange)
    ensures
        final(source)@ == text_after_change(old(source)@, change.range, change.text@),
{
    let mut document = SourceDocument::new(source.as_str());
    document.apply_change(TextChange { range: change.range, text: change.text.clone() });
    *source = document.get_code().clone();
}

/// The offset, in characters, that a position names in a text: the start
/// of its line plus its column.
pub fn get_byte_offset_from_position(source: &String, position: Position) -> (r: usize)
    ensures
        r == saturate_usize(offset_of_position(source@, position)),
{
    let document = SourceDocument::new(source.as_str());
    document.offset_at(position)
}

/// The number of lines of a text that is put in place of another: one more
/// than its line feeds, but a line feed at the very end opens no line.
pub open spec fn line_count(text: Seq<char>) -> int {
    if text.len() == 0 {
        0
    } else if text.last() == '\n' {
        line_starts(text).len() - 1
    } else {
        line_starts(text).len() as int
    }
}

/// The length of the last line of a text of more than one line.
pub open spec fn last_line_length(text: Seq<char>) -> int {
    let starts = line_starts(text);
    if text.len() > 0 && text.last() == '\n' {
        text.len() - 1 - starts[starts.len() - 2]
    } else {
        text.len() - starts.last()
    }
}

/// Where a text ends that is put in at `start`: behind the start on the
/// same line if it has one line at most, else on its last line.
pub open spec fn end_position(start: Position, text: Seq<char>) -> Position {
    if line_count(text) > 1 {
        Position {
            line: saturate_u32(start.line + line_count(text) - 1),
            character: saturate_u32(last_line_length(text)),
        }
    } else {
        Position { line: start.line, character: saturate_u32(start.character + text.len()) }
    }
}

fn to_u32(n: usize) -> (r: u32)
    ensures
        r == saturate_u32(n as int),
{
    if n > 0xffff_ffff {
        0xffff_ffff
    } else {
        n as u32
    }
}

fn sum_u32(a: u32, b: usize) -> (r: u32)
    ensures
        r == saturate_u32(a + b),
{
    let b = to_u32(b);
    match a.checked_add(b) {
        Some(s) => s,
        None => 0xffff_ffff,
    }
}

/// Where a text ends that is put in at `start`.
pub fn calculate_new_end_position(start: Position, new_text: &str) -> (r: Position)
    ensures
        r == end_position(start, new_text@),
{
    let chars = to_chars(new_text);
    let len = chars.len();
    let mut feeds: usize = 0;
    let mut last_start: usize = 0;
    let mut previous_start: usize = 0;
    let mut i: usize = 0;
    while i < len
        invariant
            i <= len,
            len == chars.len(),
            feeds <= i,
            feeds == crate::source_code::line_starts_upto(chars@, i as nat).len() - 1,
            last_start == crate::source_code::line_starts_upto(chars@, i as nat).last(),
            last_start <= i,
            feeds >= 1 ==> previous_start == crate::source_code::line_starts_upto(
                chars@,
                i as nat,
            )[feeds - 1],
            previous_start <= last_start,
        decreases len - i,
    {
        if chars[i] == '\n' {
            feeds = feeds + 1;
            previous_start = last_start;
            last_start = i + 1;
        }
        i += 1;
    }
    let ends_with_feed = len > 0 && chars[len - 1] == '\n';
    proof {
        crate::source_code::lemma_line_starts_shape(chars@, len as nat);
        if len > 0 {
            crate::source_code::lemma_line_starts_shape(chars@, (len - 1) as nat);
        }
    }
    let count = if len == 0 {
        0
    } else if ends_with_feed {
        feeds
    } else {
        feeds + 1
    };
    if count > 1 {
        let last_length = if ends_with_feed {
            len - 1 - previous_start
        } else {
            len - last_start
        };
        Position { line: sum_u32(start.line, count - 1), character: to_u32(last_length) }
    } else {
        Position { line: start.line, character: sum_u32(start.character, len) }
    }
}

/// The notification that a document was opened.
pub const DID_OPEN: &'static str = "textDocument/didOpen";

/// The notification that a document was changed.
pub const DID_CHANGE: &'static str = "textDocument/didChange";

/// The notification that a document was closed.
pub const DID_CLOSE: &'static str = "textDocument/didClose";

/// The notification that a document was saved.
pub const DID_SAVE: &'static str = "textDocument/didSave";

/// The notification that the mouse moved over a document.
pub const DID_MOUSE_MOVE: &'static str = "textDocument/didSave";

/// The notification that carries the diagnostics of a document.
pub const PUBLISH_DIAGNOSTICS: &'static str = "textDocument/publishDiagnostics";

/// The request that starts a session.
pub const INITIALIZE: &'static str = "initialize";

/// The request that ends a session.
pub const SHUTDOWN: &'static str = "shutdown";

/// The notification that the server is to exit.
pub const EXIT: &'static str = "exit";

/// The request for suggestions at the cursor.
pub const COMPLETION: &'static str = "textDocument/completion";

/// The request for a description of the name under the cursor.
pub const HOVER: &'static str = "textDocument/hover";

/// The request for the place where a name is defined.
pub const DEFINITION: &'static str = "textDocument/definition";

} // verus!
