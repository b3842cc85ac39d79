//! The diagnostic rendering algorithm.
//!
//! A non-`Io` failure renders as an optional `-->` header, a separator row,
//! the offending source line behind a line-number gutter, and a caret row
//! pointing at the failing column, followed by the parser's message. An
//! `Io` failure renders as its message alone. Optional styling wraps the
//! markers in fixed terminal color codes without touching the layout.

use vstd::prelude::*;
use vstd::string::StringExecFns;
use crate::error::{Error, ErrorKind, ErrorModel, SourceRecord};
use crate::lines::split_lines;
use crate::text::{dec_and_gutter, dec_chars, dec_digit_count, dec_string, spaces, spaces_string};

verus! {

/// Whether the markers of a diagnostic are wrapped in color codes.
#[derive(Clone, Copy, Debug, PartialEq, Eq, Structural)]
pub enum Styling {
    /// Plain text, exactly the layout and nothing else.
    Plain,
    /// Bars, arrow, caret and message wrapped in terminal color codes.
    Colored,
}

/// The code that starts the accent (bold blue) style.
pub open spec fn accent_start() -> Seq<char> {
    seq!['\u{1b}', '[', '3', '4', ';', '1', 'm']
}

/// The code that starts the alert (bold red) style.
pub open spec fn alert_start() -> Seq<char> {
    seq!['\u{1b}', '[', '3', '1', ';', '1', 'm']
}

/// The code that returns to the unstyled state.
pub open spec fn style_end() -> Seq<char> {
    seq!['\u{1b}', '[', '0', 'm']
}

/// `s` wrapped in the accent style, or unchanged when styling is off.
pub open spec fn accent(st: Styling, s: Seq<char>) -> Seq<char> {
    if st is Colored {
        accent_start() + s + style_end()
    } else {
        s
    }
}

/// `s` wrapped in the alert style, or unchanged when styling is off.
pub open spec fn alert(st: Styling, s: Seq<char>) -> Seq<char> {
    if st is Colored {
        alert_start() + s + style_end()
    } else {
        s
    }
}

/// The decoding of the failing line's bytes as text.
pub uninterp spec fn lossy_decode(bytes: Seq<u8>) -> Seq<char>;

/// The bytes of the line record the diagnostic points at.
pub open spec fn spec_line_bytes(e: ErrorModel) -> Seq<u8> {
    split_lines(e.src->0)[e.line as int - 1]
}

/// The text shown on the content row.
pub open spec fn spec_content_of(e: ErrorModel) -> Seq<char> {
    lossy_decode(spec_line_bytes(e))
}

/// `<gutter> --> <filename>:<line>:<column>`, ending the row.
pub open spec fn spec_header_row(e: ErrorModel, st: Styling) -> Seq<char> {
    spaces(dec_digit_count(e.line)) + seq![' '] + accent(st, seq!['-', '-', '>']) + seq![' ']
        + e.filename->0 + seq![':'] + dec_chars(e.line) + seq![':'] + dec_chars(e.column)
        + seq!['\n']
}

/// `<gutter> |`, ending the row.
pub open spec fn spec_separator_row(e: ErrorModel, st: Styling) -> Seq<char> {
    spaces(dec_digit_count(e.line)) + seq![' '] + accent(st, seq!['|']) + seq!['\n']
}

/// `<line> | <line text>`, ending the row.
pub open spec fn spec_content_row(e: ErrorModel, st: Styling) -> Seq<char> {
    dec_chars(e.line) + seq![' '] + accent(st, seq!['|']) + seq![' '] + spec_content_of(e)
        + seq!['\n']
}

/// `<gutter> | ` then `column` spaces, the caret, and the message: the
/// caret stands `column` characters into the content text, under the
/// character the classifier pointed at.
pub open spec fn spec_caret_row(e: ErrorModel, st: Styling) -> Seq<char> {
    spaces(dec_digit_count(e.line)) + seq![' '] + accent(st, seq!['|']) + seq![' ']
        + spaces(e.column) + alert(st, seq!['^']) + seq![' '] + alert(st, e.message) + seq!['\n']
}

/// The complete diagnostic: the message alone for `Io`, otherwise the
/// header (when a filename is present) and the three gutter rows.
pub open spec fn spec_render(e: ErrorModel, st: Styling) -> Seq<char> {
    if e.kind == ErrorKind::Io {
        e.message
    } else {
        (if e.filename is Some {
            spec_header_row(e, st)
        } else {
            Seq::empty()
        }) + spec_separator_row(e, st) + spec_content_row(e, st) + spec_caret_row(e, st)
    }
}

/// The line-number column of a positioned diagnostic is exactly as wide as
/// the decimal digit count of the failure line, in every row and under
/// either styling: the content row opens with the line number itself, the
/// header, separator and caret rows with that many spaces.
pub proof fn lemma_gutter_alignment(e: ErrorModel, st: Styling)
    requires
        e.kind != ErrorKind::Io,
    ensures
        ({
            let g = dec_digit_count(e.line);
            &&& dec_chars(e.line).len() == g
            &&& spaces(g).len() == g
            &&& spec_content_row(e, st).take(g as int) == dec_chars(e.line)
            &&& spec_separator_row(e, st).take(g as int) == spaces(g)
            &&& spec_caret_row(e, st).take(g as int) == spaces(g)
            &&& spec_header_row(e, st).take(g as int) == spaces(g)
        }),
{
    let g = dec_digit_count(e.line);
    crate::text::lemma_dec_chars_len(e.line);
    crate::text::lemma_spaces(g);
    assert(spec_content_row(e, st).take(g as int) =~= dec_chars(e.line));
    assert(spec_separator_row(e, st).take(g as int) =~= spaces(g));
    assert(spec_caret_row(e, st).take(g as int) =~= spaces(g));
    assert(spec_header_row(e, st).take(g as int) =~= spaces(g));
}

/// The caret stands exactly under the failing column: in both rows the bar
/// follows the gutter and the text begins one character after the bar, and
/// the caret comes after exactly `column` further spaces, so it falls
/// `column` characters into the content text, under the character the
/// classifier pointed at. Styling only
/// inserts its codes around the bar and the caret and moves neither: with
/// colors on, the same `column` spaces separate the bar span from the
/// caret span.
pub proof fn lemma_caret_alignment(e: ErrorModel)
    requires
        e.kind != ErrorKind::Io,
    ensures
        ({
            let g = dec_digit_count(e.line) as int;
            let col = e.column as int;
            &&& spec_separator_row(e, Styling::Plain)[g + 1] == '|'
            &&& spec_content_row(e, Styling::Plain)[g + 1] == '|'
            &&& spec_caret_row(e, Styling::Plain)[g + 1] == '|'
            &&& forall|j: int|
                0 <= j < spec_content_of(e).len() ==> spec_content_row(e, Styling::Plain)[g + 3
                    + j] == spec_content_of(e)[j]
            &&& forall|i: int|
                g + 2 <= i < g + 3 + col ==> spec_caret_row(e, Styling::Plain)[i] == ' '
            &&& spec_caret_row(e, Styling::Plain)[g + 3 + col] == '^'
            &&& forall|j: int|
                0 <= j < spec_content_of(e).len() ==> spec_content_row(e, Styling::Colored)[g + 14
                    + j] == spec_content_of(e)[j]
            &&& forall|i: int|
                g + 13 <= i < g + 14 + col ==> spec_caret_row(e, Styling::Colored)[i] == ' '
            &&& spec_caret_row(e, Styling::Colored)[g + 14 + col + 7] == '^'
        }),
{
    let g = dec_digit_count(e.line) as int;
    let col = e.column as int;
    crate::text::lemma_dec_chars_len(e.line);
    crate::text::lemma_spaces(dec_digit_count(e.line));
    crate::text::lemma_spaces(e.column);
    assert(accent(Styling::Colored, seq!['|']).len() == 12);
    assert(alert(Styling::Colored, seq!['^'])[7] == '^');
    assert(spec_caret_row(e, Styling::Plain)[g + 3 + col] == '^');
    assert(spec_caret_row(e, Styling::Colored)[g + 14 + col + 7] == '^');
}

/// An `Io` diagnostic renders as its message alone: no header, no gutter,
/// no content row, no caret row, under either styling.
pub proof fn lemma_io_message_only(e: ErrorModel, st: Styling)
    requires
        e.kind == ErrorKind::Io,
    ensures
        spec_render(e, st) == e.message,
{
}

/// Relies on `String::from_utf8_lossy`: decodes the bytes as UTF-8 text,
/// substituting the replacement character for invalid sequences; the result
/// depends on the bytes alone.
#[verifier::external_body]
fn utf8_lossy(bytes: &[u8]) -> (r: String)
    ensures
        r@ == lossy_decode(bytes@),
{
    String::from_utf8_lossy(bytes).into_owned()
}

/// Relies on `owo_colors::Style`: displaying text styled bold blue wraps it
/// in the fixed codes `ESC [34;1m` and `ESC [0m` and changes nothing else.
#[verifier::external_body]
fn paint_accent(s: &str) -> (r: String)
    ensures
        r@ == accent_start() + s@ + style_end(),
{
    let styled = owo_colors::OwoColorize::style(&s, owo_colors::Style::new().bold().blue());
    format!("{}", styled)
}

/// Relies on `owo_colors::Style`: displaying text styled bold red wraps it
/// in the fixed codes `ESC [31;1m` and `ESC [0m` and changes nothing else.
#[verifier::external_body]
fn paint_alert(s: &str) -> (r: String)
    ensures
        r@ == alert_start() + s@ + style_end(),
{
    let styled = owo_colors::OwoColorize::style(&s, owo_colors::Style::new().bold().red());
    format!("{}", styled)
}

/// `s` in the accent style of `st`.
fn accent_str(st: Styling, s: &str) -> (r: String)
    ensures
        r@ == accent(st, s@),
{
    match st {
        Styling::Plain => s.to_owned(),
        Styling::Colored => paint_accent(s),
    }
}

/// `s` in the alert style of `st`.
fn alert_str(st: Styling, s: &str) -> (r: String)
    ensures
        r@ == alert(st, s@),
{
    match st {
        Styling::Plain => s.to_owned(),
        Styling::Colored => paint_alert(s),
    }
}

impl Error {
    /// Render the diagnostic. A positioned diagnostic must be well formed:
    /// its line must point into its retained source.
    #[verifier::rlimit(50)]
    pub fn render(&self, styling: Styling) -> (out: String)
        requires
            self@.wf(),
        ensures
            out@ == spec_render(self@, styling),
    {
        if self.kind() == ErrorKind::Io {
            return self.message().clone();
        }
        let line = self.line();
        let col = self.column();
        let v: &Vec<u8> = match self.source() {
            SourceRecord::Retained(v) => v,
            SourceRecord::Placeholder => vstd::pervasive::unreached(),
        };
        let (a, b) = crate::lines::locate_line(v, line - 1);
        let content = utf8_lossy(vstd::slice::slice_subrange(v.as_slice(), a, b));
        let bar = accent_str(styling, "|");
        let arrow = accent_str(styling, "-->");
        let caret = alert_str(styling, "^");
        let msg = alert_str(styling, self.message().as_str());
        let (num, pad) = dec_and_gutter(line);
        let col_spaces = spaces_string(col);
        proof {
            reveal_strlit("|");
            reveal_strlit("-->");
            reveal_strlit("^");
            reveal_strlit(" ");
            reveal_strlit(":");
            reveal_strlit("\n");
            assert("|"@ =~= seq!['|']);
            assert("-->"@ =~= seq!['-', '-', '>']);
            assert("^"@ =~= seq!['^']);
            assert(" "@ =~= seq![' ']);
            assert(":"@ =~= seq![':']);
            assert("\n"@ =~= seq!['\n']);
        }
        let mut out = String::new();
        match self.filename() {
            Some(f) => {
                let col_num = dec_string(col);
                out.append(pad.as_str());
                out.append(" ");
                out.append(arrow.as_str());
                out.append(" ");
                out.append(f.as_str());
                out.append(":");
                out.append(num.as_str());
                out.append(":");
                out.append(col_num.as_str());
                out.append("\n");
                proof {
                    assert(out@ =~= spec_header_row(self@, styling));
                }
            },
            None => {},
        }
        let ghost head = out@;
        out.append(pad.as_str());
        out.append(" ");
        out.append(bar.as_str());
        out.append("\n");
        proof {
            assert(out@ =~= head + spec_separator_row(self@, styling));
        }
        out.append(num.as_str());
        out.append(" ");
        out.append(bar.as_str());
        out.append(" ");
        out.append(content.as_str());
        out.append("\n");
        proof {
            assert(out@ =~= head + spec_separator_row(self@, styling) + spec_content_row(
                self@,
                styling,
            ));
        }
        let ghost body = out@;
        out.append(pad.as_str());
        out.append(" ");
        out.append(bar.as_str());
        out.append(" ");
        out.append(col_spaces.as_str());
        out.append(caret.as_str());
        out.append(" ");
        out.append(msg.as_str());
        out.append("\n");
        proof {
            assert(out@ =~= body + spec_caret_row(self@, styling));
            assert(out@ =~= spec_render(self@, styling));
        }
        out
    }

    /// Render if the diagnostic is well formed; report a contract violation
    /// (a position without a matching retained source) as `None` instead of
    /// mis-rendering it.
    pub fn try_render(&self, styling: Styling) -> (out: Option<String>)
        ensures
            match out {
                Some(s) => self@.wf() && s@ == spec_render(self@, styling),
                None => !self@.wf(),
            },
    {
        if self.kind() == ErrorKind::Io {
            return Some(self.render(styling));
        }
        let line = self.line();
        if line == 0 {
            return None;
        }
        match self.source() {
            SourceRecord::Retained(v) => {
                if crate::lines::has_line(v, line - 1) {
                    Some(self.render(styling))
                } else {
                    None
                }
            },
            SourceRecord::Placeholder => None,
        }
    }
}

} // verus!
