//! The in-band control syntax of printed text.
//!
//! A backslash opens a directive and the character after it selects one:
//! `c` switches to the highlight colour, `r` back to the default colour. Any
//! other character after a backslash is dropped and the backslash itself is
//! drawn. Outside a directive a line feed starts a new line, a tab indents,
//! and every other character is handed on to be drawn.

use vstd::prelude::*;

verus! {

/// Opens a directive.
pub const ESCAPE_CHAR: char = '\\';

/// Where the parser stands between two characters.
#[derive(Clone, Copy, Debug, PartialEq, Eq)]
pub enum ParserState {
    /// Outside a directive.
    Normal,
    /// Directly behind a backslash.
    Escape,
}

/// What the console is to do for one character of the text.
#[derive(Clone, Copy, Debug, PartialEq, Eq)]
pub enum Directive {
    /// Nothing yet: the character opened a directive.
    Pending,
    /// Draw in the highlight colour from now on.
    Highlight,
    /// Draw in the default colour from now on.
    Reset,
    /// Start a new line.
    Newline,
    /// Indent by one tab.
    Tab,
    /// Hand the character to the console's character writer.
    Render(char),
}

/// The parser's transition: the state after `c` and what `c` asks for.
pub open spec fn parse(state: ParserState, c: char) -> (ParserState, Directive) {
    match state {
        ParserState::Normal => if c == ESCAPE_CHAR {
            (ParserState::Escape, Directive::Pending)
        } else if c == '\n' {
            (ParserState::Normal, Directive::Newline)
        } else if c == '\t' {
            (ParserState::Normal, Directive::Tab)
        } else {
            (ParserState::Normal, Directive::Render(c))
        },
        ParserState::Escape => if c == 'c' {
            (ParserState::Normal, Directive::Highlight)
        } else if c == 'r' {
            (ParserState::Normal, Directive::Reset)
        } else {
            (ParserState::Normal, Directive::Render(ESCAPE_CHAR))
        },
    }
}

/// Feeds one character to the parser.
pub fn parse_step(state: ParserState, c: char) -> (r: (ParserState, Directive))
    ensures
        r == parse(state, c),
{
    match state {
        ParserState::Normal => if c == ESCAPE_CHAR {
            (ParserState::Escape, Directive::Pending)
        } else if c == '\n' {
            (ParserState::Normal, Directive::Newline)
        } else if c == '\t' {
            (ParserState::Normal, Directive::Tab)
        } else {
            (ParserState::Normal, Directive::Render(c))
        },
        ParserState::Escape => if c == 'c' {
            (ParserState::Normal, Directive::Highlight)
        } else if c == 'r' {
            (ParserState::Normal, Directive::Reset)
        } else {
            (ParserState::Normal, Directive::Render(ESCAPE_CHAR))
        },
    }
}

/// A directive never leaves the parser inside a directive: the state after
/// the character behind a backslash is `Normal`, whatever the character.
pub proof fn lemma_escape_is_one_character(c: char)
    ensures
        parse(ParserState::Escape, c).0 == ParserState::Normal,
        parse(ParserState::Escape, c).1 != Directive::Pending,
{
}

} // verus!
