//! Syntax colouring of document lines: each line is classified by the
//! syntax parser, and the classification plus a handful of keyword
//! prefixes decide its colour and whether it is dimmed as comment text.
use vstd::prelude::*;
use vstd::string::{StrSliceExecFns, StringExecFns};

use plantuml_parser::PlantUmlLineKind;

use crate::diagnostics::strings_view;

verus! {

/// The classification of one document line.
#[derive(Clone, Copy, PartialEq, Eq, Structural, Debug)]
pub enum LineKind {
    Start,
    End,
    BlockCommentOpen,
    BlockCommentClose,
    Include,
    Title,
    Header,
    Footer,
    Empty,
    InComment,
    Others,
}

/// What the syntax parser answers for a single line: its kind and the raw
/// text the classification covers, or nothing when the line cannot be
/// read at all. The answer depends on the line alone.
pub uninterp spec fn pmu_line_parse(line: Seq<char>) -> Option<(LineKind, Seq<char>)>;

/// Relies on `plantuml_parser::PlantUmlLine::parse`: classifying one line
/// is a pure function of that line, and `raw_str` is the text the parsed
/// line covers.
#[verifier::external_body]
fn parse_line(line: &str) -> (r: Option<(LineKind, String)>)
    ensures
        ({
            match r {
                Some((kind, raw)) => pmu_line_parse(line@) == Some((kind, raw@)),
                None => pmu_line_parse(line@) is None,
            }
        }),
{
    let (_, (_, p)) = plantuml_parser::PlantUmlLine::parse(line.into()).ok()?;
    let kind = match p.kind() {
        PlantUmlLineKind::Start(_) => LineKind::Start,
        PlantUmlLineKind::End(_) => LineKind::End,
        PlantUmlLineKind::BlockCommentOpen(_) => LineKind::BlockCommentOpen,
        PlantUmlLineKind::BlockCommentClose(_) => LineKind::BlockCommentClose,
        PlantUmlLineKind::Include(_) => LineKind::Include,
        PlantUmlLineKind::Title(_) => LineKind::Title,
        PlantUmlLineKind::Header(_) => LineKind::Header,
        PlantUmlLineKind::Footer(_) => LineKind::Footer,
        PlantUmlLineKind::Empty => LineKind::Empty,
        PlantUmlLineKind::InComment(_) => LineKind::InComment,
        PlantUmlLineKind::Others => LineKind::Others,
    };
    Some((kind, p.raw_str().to_string()))
}

/// The colours the presentation layer can give a line.
#[derive(Clone, Copy, PartialEq, Eq, Structural, Debug)]
pub enum StyleClass {
    Blue,
    Cyan,
    Magenta,
    LightMagenta,
    Yellow,
    Green,
    Gray,
    Plain,
}

/// One line ready to draw: the text to show, its colour, and whether it is
/// dimmed as comment text.
pub struct StyledLine {
    pub content: String,
    pub style: StyleClass,
    pub dimmed: bool,
}

pub open spec fn starts_with_spec(s: Seq<char>, prefix: Seq<char>) -> bool {
    s.len() >= prefix.len() && s.subrange(0, prefix.len() as int) == prefix
}

/// Whether `s` begins with `prefix`, character for character.
pub fn str_starts_with(s: &str, prefix: &str) -> (r: bool)
    ensures
        r == starts_with_spec(s@, prefix@),
{
    let n = prefix.unicode_len();
    let m = s.unicode_len();
    if m < n {
        return false;
    }
    let mut i: usize = 0;
    while i < n
        invariant
            i <= n,
            n == prefix@.len(),
            m == s@.len(),
            m >= n,
            forall|j: int| 0 <= j < i ==> s@[j] == prefix@[j],
        decreases n - i,
    {
        if s.get_char(i) != prefix.get_char(i) {
            proof {
                assert(s@.subrange(0, n as int)[i as int] != prefix@[i as int]);
            }
            return false;
        }
        i = i + 1;
    }
    proof {
        assert(s@.subrange(0, n as int) =~= prefix@);
    }
    true
}

/// The colour of an unclassified line: a few keyword prefixes get their
/// own colour, everything else stays plain.
pub open spec fn others_style_spec(line: Seq<char>) -> StyleClass {
    if starts_with_spec(line, "!define "@) {
        StyleClass::Yellow
    } else if starts_with_spec(line, "legend "@) || starts_with_spec(line, "end legend"@) {
        StyleClass::LightMagenta
    } else if starts_with_spec(line, "skinparam"@) {
        StyleClass::Green
    } else {
        StyleClass::Plain
    }
}

fn others_style(line: &str) -> (r: StyleClass)
    ensures
        r == others_style_spec(line@),
{
    if str_starts_with(line, "!define ") {
        StyleClass::Yellow
    } else if str_starts_with(line, "legend ") || str_starts_with(line, "end legend") {
        StyleClass::LightMagenta
    } else if str_starts_with(line, "skinparam") {
        StyleClass::Green
    } else {
        StyleClass::Plain
    }
}

/// Whether a block comment is open after a line of this kind.
pub open spec fn comment_state_after(kind: LineKind, in_comment: bool) -> bool {
    match kind {
        LineKind::BlockCommentOpen => true,
        LineKind::BlockCommentClose => false,
        _ => in_comment,
    }
}

/// The kinds that show the parser's raw text instead of the line as typed.
pub open spec fn line_uses_raw(kind: LineKind) -> bool {
    match kind {
        LineKind::Start => true,
        LineKind::End => true,
        LineKind::Include => true,
        LineKind::Title => true,
        LineKind::Header => true,
        LineKind::Footer => true,
        _ => false,
    }
}

pub open spec fn line_style_spec(kind: LineKind, line: Seq<char>) -> StyleClass {
    match kind {
        LineKind::Start => StyleClass::Blue,
        LineKind::End => StyleClass::Blue,
        LineKind::Include => StyleClass::Yellow,
        LineKind::Title => StyleClass::Cyan,
        LineKind::Header => StyleClass::Magenta,
        LineKind::Footer => StyleClass::Magenta,
        LineKind::Empty => StyleClass::Gray,
        LineKind::Others => others_style_spec(line),
        _ => StyleClass::Plain,
    }
}

/// A line is dimmed when it closes a block comment, sits inside one, or
/// leaves one open.
pub open spec fn line_dim_spec(kind: LineKind, in_comment_after: bool) -> bool {
    match kind {
        LineKind::BlockCommentClose => true,
        LineKind::InComment => true,
        _ => in_comment_after,
    }
}

/// The fully styled form of one line under a given comment state, paired
/// with the state after it; a line the parser cannot read yields nothing
/// and is skipped.
pub open spec fn styled_line_spec(line: Seq<char>, in_comment: bool) -> Option<
    (Seq<char>, StyleClass, bool, bool),
> {
    match pmu_line_parse(line) {
        None => None,
        Some((kind, raw)) => {
            let after = comment_state_after(kind, in_comment);
            Some(
                (
                    if line_uses_raw(kind) {
                        raw
                    } else {
                        line
                    },
                    line_style_spec(kind, line),
                    line_dim_spec(kind, after),
                    after,
                ),
            )
        },
    }
}

/// Styles one line and reports the comment state after it.
pub fn highlight_line(line: &str, in_comment_block: bool) -> (r: Option<(StyledLine, bool)>)
    ensures
        ({
            match r {
                None => styled_line_spec(line@, in_comment_block) is None,
                Some((sl, after)) => styled_line_spec(line@, in_comment_block) == Some(
                    (sl.content@, sl.style, sl.dimmed, after),
                ),
            }
        }),
{
    match parse_line(line) {
        None => None,
        Some((kind, raw)) => {
            let after = match kind {
                LineKind::BlockCommentOpen => true,
                LineKind::BlockCommentClose => false,
                _ => in_comment_block,
            };
            let uses_raw = match kind {
                LineKind::Start => true,
                LineKind::End => true,
                LineKind::Include => true,
                LineKind::Title => true,
                LineKind::Header => true,
                LineKind::Footer => true,
                _ => false,
            };
            let style = match kind {
                LineKind::Start => StyleClass::Blue,
                LineKind::End => StyleClass::Blue,
                LineKind::Include => StyleClass::Yellow,
                LineKind::Title => StyleClass::Cyan,
                LineKind::Header => StyleClass::Magenta,
                LineKind::Footer => StyleClass::Magenta,
                LineKind::Empty => StyleClass::Gray,
                LineKind::Others => others_style(line),
                _ => StyleClass::Plain,
            };
            let dimmed = match kind {
                LineKind::BlockCommentClose => true,
                LineKind::InComment => true,
                _ => after,
            };
            let content = if uses_raw {
                raw
            } else {
                String::from_str(line)
            };
            Some((StyledLine { content, style, dimmed }, after))
        },
    }
}

/// The styled form of a whole document, threading the block-comment state
/// from line to line; unreadable lines are skipped.
pub open spec fn highlight_lines_spec(lines: Seq<Seq<char>>, in_comment: bool) -> Seq<
    (Seq<char>, StyleClass, bool),
>
    decreases lines.len(),
{
    if lines.len() == 0 {
        Seq::empty()
    } else {
        match styled_line_spec(lines[0], in_comment) {
            None => highlight_lines_spec(lines.skip(1), in_comment),
            Some((content, style, dim, after)) => seq![(content, style, dim)]
                + highlight_lines_spec(lines.skip(1), after),
        }
    }
}

pub open spec fn styled_view(v: Seq<StyledLine>) -> Seq<(Seq<char>, StyleClass, bool)> {
    Seq::new(v.len(), |i: int| (v[i].content@, v[i].style, v[i].dimmed))
}

/// Styles every line of the document, starting outside any block comment.
pub fn syntax_highlighting(lines: &Vec<String>) -> (r: Vec<StyledLine>)
    ensures
        styled_view(r@) == highlight_lines_spec(strings_view(lines@), false),
{
    let n = lines.len();
    let mut r: Vec<StyledLine> = Vec::new();
    let mut in_comment_block = false;
    let mut i: usize = 0;
    proof {
        assert(strings_view(lines@).skip(0) =~= strings_view(lines@));
        assert(styled_view(r@) + highlight_lines_spec(strings_view(lines@), false)
            =~= highlight_lines_spec(strings_view(lines@), false));
    }
    while i < n
        invariant
            i <= n,
            n == lines@.len(),
            highlight_lines_spec(strings_view(lines@), false) =~= styled_view(r@)
                + highlight_lines_spec(strings_view(lines@).skip(i as int), in_comment_block),
        decreases n - i,
    {
        let ghost all = strings_view(lines@);
        let ghost rem = all.skip(i as int);
        proof {
            assert(rem.len() == n - i);
            assert(rem[0] == lines@[i as int]@);
            assert(rem.skip(1) =~= all.skip(i + 1));
        }
        let ghost r0 = r@;
        let ghost state0 = in_comment_block;
        match highlight_line(lines[i].as_str(), in_comment_block) {
            None => {
                proof {
                    assert(highlight_lines_spec(rem, state0) =~= highlight_lines_spec(
                        all.skip(i + 1),
                        state0,
                    ));
                }
            },
            Some((styled, after)) => {
                let ghost item = (styled.content@, styled.style, styled.dimmed);
                r.push(styled);
                in_comment_block = after;
                proof {
                    assert(styled_view(r@) =~= styled_view(r0).push(item));
                    assert(highlight_lines_spec(rem, state0) =~= seq![item]
                        + highlight_lines_spec(all.skip(i + 1), after));
                    assert(styled_view(r0) + highlight_lines_spec(rem, state0) =~= styled_view(r@)
                        + highlight_lines_spec(all.skip(i + 1), after));
                }
            },
        }
        i = i + 1;
    }
    proof {
        assert(strings_view(lines@).skip(n as int) =~= Seq::<Seq<char>>::empty());
        assert(styled_view(r@) + highlight_lines_spec(
            strings_view(lines@).skip(n as int),
            in_comment_block,
        ) =~= styled_view(r@));
    }
    r
}

} // verus!
