//! Text as the terminal interface draws it: spans, lines and whole texts of `ratatui`.

use ansi_to_tui::IntoText;
use ratatui::text::{Line, Span, Text};
use vstd::prelude::*;

use crate::text::texts_of;

verus! {

/// `ratatui::text::Span`: a run of characters in one style. Nothing is known of its
/// fields here; what it holds goes by the name [`span_content`].
#[verifier::external_type_specification]
#[verifier::external_body]
pub struct ExSpan<'a>(Span<'a>);

/// `ratatui::text::Line`: the spans of one line. Nothing is known of its fields here;
/// what it holds goes by the name [`line_contents`].
#[verifier::external_type_specification]
#[verifier::external_body]
pub struct ExLine<'a>(Line<'a>);

/// `ratatui::text::Text`: the lines of a text. Nothing is known of its fields here;
/// what it holds goes by the name [`text_contents`].
#[verifier::external_type_specification]
#[verifier::external_body]
pub struct ExText<'a>(Text<'a>);

/// `ansi_to_tui::Error`: why a run of characters could not be read as text with ANSI
/// escape sequences.
#[verifier::external_type_specification]
#[verifier::external_body]
pub struct ExAnsiError(ansi_to_tui::Error);

/// The characters that a span holds: its `content` field.
pub uninterp spec fn span_content(span: Span<'static>) -> Seq<char>;

/// The contents of the spans that a line holds, in order: its `spans` field, span by
/// span.
pub uninterp spec fn line_contents(line: Line<'static>) -> Seq<Seq<char>>;

/// The contents of the lines that a text holds, in order: its `lines` field, line by
/// line.
pub uninterp spec fn text_contents(text: Text<'static>) -> Seq<Seq<Seq<char>>>;

/// The contents of the text that `line` stands for once its ANSI escape sequences are
/// taken for the styles that they select, where `line` can be read so.
pub uninterp spec fn ansi_text_contents(line: Seq<char>) -> Option<Seq<Seq<Seq<char>>>>;

/// The text that `line` stands for once its ANSI escape sequences are taken for the
/// styles that they select.
///
/// Wraps `IntoText::into_text` of `ansi_to_tui`, which parses the bytes of its input
/// and depends on nothing else: the same characters give the same text, or the same
/// failure.
#[verifier::external_body]
pub(crate) fn text_of_ansi(line: &str) -> (result: Result<Text<'static>, ansi_to_tui::Error>)
    ensures
        match result {
            Ok(text) => ansi_text_contents(line@) == Some(text_contents(text)),
            Err(_) => ansi_text_contents(line@) is None,
        },
{
    line.into_text()
}

/// A span of `content` in the default style.
///
/// Wraps `Span::raw`, which stores the content as it is given.
#[verifier::external_body]
pub(crate) fn raw_span(content: String) -> (span: Span<'static>)
    ensures
        span_content(span) == content@,
{
    Span::raw(content)
}

/// The line made of `spans`.
///
/// Wraps `Line::from` for a vector of spans, which stores the spans as they are
/// given, without a style or an alignment of the line's own.
#[verifier::external_body]
pub(crate) fn line_of_spans(spans: Vec<Span<'static>>) -> (line: Line<'static>)
    ensures
        line_contents(line) == spans@.map_values(|span: Span<'static>| span_content(span)),
{
    Line::from(spans)
}

/// The text made of the one line `line`.
///
/// Wraps `Text::from` for a line, which stores that line as the only one of the text.
#[verifier::external_body]
pub(crate) fn text_of_line(line: Line<'static>) -> (text: Text<'static>)
    ensures
        text_contents(text) == seq![line_contents(line)],
{
    Text::from(line)
}

/// The text of one line whose spans hold `contents`, each in the default style.
pub fn single_line_text(contents: Vec<String>) -> (text: Text<'static>)
    ensures
        text_contents(text) == seq![texts_of(contents@)],
{
    let mut spans: Vec<Span<'static>> = Vec::new();
    let mut i: usize = 0;
    while i < contents.len()
        invariant
            i <= contents.len(),
            spans@.map_values(|span: Span<'static>| span_content(span)) == texts_of(contents@).take(
                i as int,
            ),
        decreases contents.len() - i,
    {
        let ghost before = spans@.map_values(|span: Span<'static>| span_content(span));
        let span = raw_span(contents[i].clone());
        spans.push(span);
        i += 1;
        assert(spans@.map_values(|span: Span<'static>| span_content(span)) =~= before.push(
            span_content(span),
        ));
    }
    assert(texts_of(contents@).take(i as int) =~= texts_of(contents@));
    text_of_line(line_of_spans(spans))
}

} // verus!
