//! Colouring the calculator's markup for a terminal.
//!
//! Which kind of text gets which style is decided here. The escape sequences
//! are the `colored` crate's, and whether it writes any depends on a switch
//! that belongs to the whole process: so a styled part has two possible
//! renderings, and `shows` admits both.

use colored::Colorize;
use vstd::prelude::*;

verus! {

/// The kinds of text that the calculator's markup tells apart.
#[derive(Debug, Clone, Copy, PartialEq, Eq, Structural)]
pub enum FormatKind {
    Whitespace,
    Emphasized,
    Dimmed,
    Text,
    String,
    Keyword,
    Value,
    Unit,
    Identifier,
    TypeIdentifier,
    Operator,
    Decorator,
}

/// The styles in which a part of the markup is shown.
#[derive(Debug, Clone, Copy, PartialEq, Eq, Structural)]
pub enum Style {
    Plain,
    Bold,
    Dimmed,
    Green,
    Magenta,
    Yellow,
    Cyan,
    BlueItalic,
}

/// The style in which text of kind `kind` is shown.
pub open spec fn style_of(kind: FormatKind) -> Style {
    match kind {
        FormatKind::Whitespace => Style::Plain,
        FormatKind::Emphasized => Style::Bold,
        FormatKind::Dimmed => Style::Dimmed,
        FormatKind::Text => Style::Plain,
        FormatKind::String => Style::Green,
        FormatKind::Keyword => Style::Magenta,
        FormatKind::Value => Style::Yellow,
        FormatKind::Unit => Style::Cyan,
        FormatKind::Identifier => Style::Plain,
        FormatKind::TypeIdentifier => Style::BlueItalic,
        FormatKind::Operator => Style::Bold,
        FormatKind::Decorator => Style::Green,
    }
}

/// The escape sequence that ends every styled text, and that a terminal
/// reads as "back to normal".
pub open spec fn reset_sequence() -> Seq<char> {
    seq!['\u{1b}', '[', '0', 'm']
}

/// The parameters that select `style` in an escape sequence.
pub open spec fn code_of(style: Style) -> Seq<char> {
    match style {
        Style::Plain => Seq::empty(),
        Style::Bold => seq!['1'],
        Style::Dimmed => seq!['2'],
        Style::Green => seq!['3', '2'],
        Style::Magenta => seq!['3', '5'],
        Style::Yellow => seq!['3', '3'],
        Style::Cyan => seq!['3', '6'],
        Style::BlueItalic => seq!['3', ';', '3', '4'],
    }
}

/// `text` between the escape sequence that switches `style` on and the one
/// that switches it off again.
pub open spec fn styled(style: Style, text: Seq<char>) -> Seq<char> {
    seq!['\u{1b}', '['] + code_of(style) + seq!['m'] + text + reset_sequence()
}

/// Whether `text` itself holds the sequence that ends a styled text.
pub open spec fn holds_reset(text: Seq<char>) -> bool {
    exists|i: int|
        0 <= i && i + 4 <= text.len() && #[trigger] text.subrange(i, i + 4) == reset_sequence()
}

/// Whether `out` shows `text` in `style`.
///
/// Plain text is shown as it is. Styled text comes out in one of two ways,
/// and which one is for the process's colour switch to say: bare, or between
/// its escape sequences. Text that holds a reset sequence of its own is
/// patched inside when colours are on, and nothing is said of it.
pub open spec fn shows(out: Seq<char>, style: Style, text: Seq<char>) -> bool {
    if style == Style::Plain {
        out == text
    } else {
        !holds_reset(text) ==> out == text || out == styled(style, text)
    }
}

/// Calls `Colorize::normal` on `text` and renders the result with `to_string`.
///
/// Trusted: a string without colour or style is rendered as it is, whatever
/// the colour switch says.
#[verifier::external_body]
fn paint_plain(text: &str) -> (out: String)
    ensures
        shows(out@, Style::Plain, text@),
{
    text.normal().to_string()
}

/// Calls `Colorize::bold` on `text` and renders the result with `to_string`.
///
/// Trusted: the rendering is the bare text when colours are off, and the text
/// after `ESC [ 1 m` and before the reset sequence when they are on.
#[verifier::external_body]
fn paint_bold(text: &str) -> (out: String)
    ensures
        shows(out@, Style::Bold, text@),
{
    text.bold().to_string()
}

/// Calls `Colorize::dimmed` on `text` and renders the result with `to_string`.
///
/// Trusted: the rendering is the bare text when colours are off, and the text
/// after `ESC [ 2 m` and before the reset sequence when they are on.
#[verifier::external_body]
fn paint_dimmed(text: &str) -> (out: String)
    ensures
        shows(out@, Style::Dimmed, text@),
{
    text.dimmed().to_string()
}

/// Calls `Colorize::green` on `text` and renders the result with `to_string`.
///
/// Trusted: the rendering is the bare text when colours are off, and the text
/// after `ESC [ 32 m` and before the reset sequence when they are on.
#[verifier::external_body]
fn paint_green(text: &str) -> (out: String)
    ensures
        shows(out@, Style::Green, text@),
{
    text.green().to_string()
}

/// Calls `Colorize::magenta` on `text` and renders the result with
/// `to_string`.
///
/// Trusted: the rendering is the bare text when colours are off, and the text
/// after `ESC [ 35 m` and before the reset sequence when they are on.
#[verifier::external_body]
fn paint_magenta(text: &str) -> (out: String)
    ensures
        shows(out@, Style::Magenta, text@),
{
    text.magenta().to_string()
}

/// Calls `Colorize::yellow` on `text` and renders the result with `to_string`.
///
/// Trusted: the rendering is the bare text when colours are off, and the text
/// after `ESC [ 33 m` and before the reset sequence when they are on.
#[verifier::external_body]
fn paint_yellow(text: &str) -> (out: String)
    ensures
        shows(out@, Style::Yellow, text@),
{
    text.yellow().to_string()
}

/// Calls `Colorize::cyan` on `text` and renders the result with `to_string`.
///
/// Trusted: the rendering is the bare text when colours are off, and the text
/// after `ESC [ 36 m` and before the reset sequence when they are on.
#[verifier::external_body]
fn paint_cyan(text: &str) -> (out: String)
    ensures
        shows(out@, Style::Cyan, text@),
{
    text.cyan().to_string()
}

/// Calls `Colorize::blue` on `text`, then `Colorize::italic` on what that
/// gave, and renders the result with `to_string`.
///
/// Trusted: the rendering is the bare text when colours are off, and the text
/// after `ESC [ 3 ; 34 m` and before the reset sequence when they are on: the
/// style's parameter comes before the colour's.
#[verifier::external_body]
fn paint_blue_italic(text: &str) -> (out: String)
    ensures
        shows(out@, Style::BlueItalic, text@),
{
    text.blue().italic().to_string()
}

/// Shows `text` in `style`.
pub fn paint(style: Style, text: &str) -> (out: String)
    ensures
        shows(out@, style, text@),
{
    match style {
        Style::Plain => paint_plain(text),
        Style::Bold => paint_bold(text),
        Style::Dimmed => paint_dimmed(text),
        Style::Green => paint_green(text),
        Style::Magenta => paint_magenta(text),
        Style::Yellow => paint_yellow(text),
        Style::Cyan => paint_cyan(text),
        Style::BlueItalic => paint_blue_italic(text),
    }
}

/// The formatter that colours markup with ANSI escape sequences.
pub struct ANSIFormatter;

impl ANSIFormatter {
    /// The style in which this formatter shows text of kind `kind`.
    pub fn style(&self, kind: FormatKind) -> (style: Style)
        ensures
            style == style_of(kind),
    {
        match kind {
            FormatKind::Whitespace => Style::Plain,
            FormatKind::Emphasized => Style::Bold,
            FormatKind::Dimmed => Style::Dimmed,
            FormatKind::Text => Style::Plain,
            FormatKind::String => Style::Green,
            FormatKind::Keyword => Style::Magenta,
            FormatKind::Value => Style::Yellow,
            FormatKind::Unit => Style::Cyan,
            FormatKind::Identifier => Style::Plain,
            FormatKind::TypeIdentifier => Style::BlueItalic,
            FormatKind::Operator => Style::Bold,
            FormatKind::Decorator => Style::Green,
        }
    }

    /// Shows one part of the markup: `text`, of kind `kind`, in the style of
    /// its kind. Whitespace, plain text and identifiers come back unchanged.
    pub fn format_part(&self, kind: FormatKind, text: &str) -> (out: String)
        ensures
            shows(out@, style_of(kind), text@),
    {
        paint(self.style(kind), text)
    }
}

} // verus!
