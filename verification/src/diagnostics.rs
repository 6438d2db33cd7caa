//! The two-tier diagnostic policy for a failed render: prefer a syntax-level
//! parse error, trimmed down to its position information, over the external
//! tool's raw standard-error text.
use vstd::prelude::*;
use vstd::string::{StrSliceExecFns, StringExecFns};

verus! {

/// The ways the syntax parser can fail on a document.
#[derive(Clone, Copy, PartialEq, Eq, Structural, Debug)]
pub enum ParseFailureKind {
    Parse,
    PathResolver,
    DiagramKindNotMatch,
    ContentUnclosed,
    IsNotBlockComment,
    Unreachable,
}

/// What the syntax parser answers for a given document: success, or a
/// failure kind with the failure's own message text. The answer depends on
/// the document text alone.
pub uninterp spec fn pmu_parse(text: Seq<char>) -> Result<(), (ParseFailureKind, Seq<char>)>;

/// Relies on `plantuml_parser::PlantUmlFileData::parse_from_str`: parsing is
/// a pure function of the document text, and each failure variant carries
/// the message its own rendering produces.
#[verifier::external_body]
fn parse_document(text: &str) -> (r: Result<(), (ParseFailureKind, String)>)
    ensures
        ({
            match r {
                Ok(_) => pmu_parse(text@) == Ok::<(), (ParseFailureKind, Seq<char>)>(()),
                Err((kind, msg)) => pmu_parse(text@) == Err::<(), (ParseFailureKind, Seq<char>)>(
                    (kind, msg@),
                ),
            }
        }),
{
    match plantuml_parser::PlantUmlFileData::parse_from_str(text) {
        Ok(_) => Ok(()),
        Err(plantuml_parser::Error::Parse(e)) => Err((ParseFailureKind::Parse, e.to_string())),
        Err(plantuml_parser::Error::PathResolver(e)) => Err((ParseFailureKind::PathResolver, e.to_string())),
        Err(plantuml_parser::Error::DiagramKindNotMatch(_, _)) => Err((ParseFailureKind::DiagramKindNotMatch, String::new())),
        Err(plantuml_parser::Error::ContentUnclosed(_)) => Err((ParseFailureKind::ContentUnclosed, String::new())),
        Err(plantuml_parser::Error::IsNotBlockComment) => Err((ParseFailureKind::IsNotBlockComment, String::new())),
        Err(plantuml_parser::Error::Unreachable(e)) => Err((ParseFailureKind::Unreachable, e)),
    }
}

/// Splitting a character sequence on a separator, front to back; the result
/// always has one part more than there are separators.
pub open spec fn spec_split(s: Seq<char>, sep: char) -> Seq<Seq<char>>
    decreases s.len(),
{
    if s.len() == 0 {
        seq![Seq::<char>::empty()]
    } else if s[0] == sep {
        seq![Seq::<char>::empty()] + spec_split(s.skip(1), sep)
    } else {
        let rest = spec_split(s.skip(1), sep);
        seq![seq![s[0]] + rest[0]] + rest.skip(1)
    }
}

pub proof fn lemma_split_nonempty(s: Seq<char>, sep: char)
    ensures
        spec_split(s, sep).len() >= 1,
    decreases s.len(),
{
    if s.len() != 0 && s[0] != sep {
        lemma_split_nonempty(s.skip(1), sep);
    }
}

/// The given part, glued onto the front of the first part of the given
/// split.
pub open spec fn prepend_first(p: Seq<char>, ss: Seq<Seq<char>>) -> Seq<Seq<char>> {
    seq![p + ss[0]] + ss.skip(1)
}

pub open spec fn strings_view(v: Seq<String>) -> Seq<Seq<char>> {
    Seq::new(v.len(), |i: int| v[i]@)
}

/// Splits a string on commas, exactly as the splitting of its character
/// sequence says.
fn split_commas(s: &str) -> (parts: Vec<String>)
    ensures
        strings_view(parts@) == spec_split(s@, ','),
{
    let n = s.unicode_len();
    let mut parts: Vec<String> = Vec::new();
    let mut start: usize = 0;
    let mut i: usize = 0;
    proof {
        lemma_split_nonempty(s@, ',');
        assert(s@.skip(0) =~= s@);
        assert(s@.subrange(0, 0) + spec_split(s@, ',')[0] =~= spec_split(s@, ',')[0]);
        assert(strings_view(parts@) + prepend_first(
            s@.subrange(0, 0),
            spec_split(s@.skip(0), ','),
        ) =~= spec_split(s@, ','));
    }
    while i < n
        invariant
            n == s@.len(),
            start <= i <= n,
            spec_split(s@, ',') =~= strings_view(parts@) + prepend_first(
                s@.subrange(start as int, i as int),
                spec_split(s@.skip(i as int), ','),
            ),
        decreases n - i,
    {
        let ghost sq = s@;
        let ghost rem = sq.skip(i as int);
        let ghost ss2 = spec_split(sq.skip(i + 1), ',');
        proof {
            lemma_split_nonempty(sq.skip(i + 1), ',');
            assert(rem.len() == n - i);
            assert(rem[0] == sq[i as int]);
            assert(rem.skip(1) =~= sq.skip(i + 1));
        }
        let c = s.get_char(i);
        if c == ',' {
            let ghost parts0 = parts@;
            let ghost cur = sq.subrange(start as int, i as int);
            parts.push(String::from_str(s.substring_char(start, i)));
            proof {
                // The remainder starts with the separator: its split is an
                // empty part before the split of what follows.
                assert(spec_split(rem, ',') =~= seq![Seq::<char>::empty()] + ss2);
                assert(cur + spec_split(rem, ',')[0] =~= cur);
                assert(prepend_first(cur, spec_split(rem, ',')) =~= seq![cur] + ss2);
                assert(sq.subrange(i + 1, i + 1) + ss2[0] =~= ss2[0]);
                assert(prepend_first(sq.subrange(i + 1, i + 1), ss2) =~= ss2);
                assert(strings_view(parts@) =~= strings_view(parts0) + seq![cur]);
                assert(strings_view(parts0) + (seq![cur] + ss2) =~= (strings_view(parts0)
                    + seq![cur]) + ss2);
                assert(spec_split(sq, ',') =~= strings_view(parts@) + ss2);
            }
            start = i + 1;
        } else {
            proof {
                assert(spec_split(rem, ',') =~= seq![seq![rem[0]] + ss2[0]] + ss2.skip(1));
                assert(sq.subrange(start as int, i as int) + seq![sq[i as int]] =~= sq.subrange(
                    start as int,
                    i + 1,
                ));
                assert(sq.subrange(start as int, i as int) + (seq![sq[i as int]] + ss2[0])
                    =~= sq.subrange(start as int, i + 1) + ss2[0]);
                assert(prepend_first(sq.subrange(start as int, i as int), spec_split(rem, ','))
                    =~= prepend_first(sq.subrange(start as int, i + 1), ss2));
            }
        }
        i = i + 1;
    }
    proof {
        assert(s@.skip(n as int) =~= Seq::<char>::empty());
        assert(prepend_first(
            s@.subrange(start as int, n as int),
            spec_split(s@.skip(n as int), ','),
        ) =~= seq![s@.subrange(start as int, n as int)]);
    }
    parts.push(String::from_str(s.substring_char(start, n)));
    proof {
        assert(strings_view(parts@) =~= spec_split(s@, ','));
    }
    parts
}

/// What the position-only trimming of a raw parse message yields: when the
/// message has at least four comma-separated parts, the third- and
/// second-to-last parts carry the error's begin and end positions, and the
/// trimmed message keeps exactly those, under a `Parse error` heading, with
/// the leading space of the one and the closing delimiters of the other cut
/// off; any shorter or malformed message is kept whole.
pub open spec fn trim_parse_message_spec(msg: Seq<char>) -> Seq<char> {
    let parts = spec_split(msg, ',');
    if parts.len() >= 4 {
        let begin = parts[parts.len() - 3];
        let end = parts[parts.len() - 2];
        if begin.len() >= 1 && end.len() >= 3 {
            "Parse error\n"@ + begin.skip(1) + ","@ + end.subrange(0, end.len() - 3)
        } else {
            msg
        }
    } else {
        msg
    }
}

/// Cuts a raw parse message down to its begin and end positions, as
/// `trim_parse_message_spec` says.
pub fn trim_parse_message(msg: &str) -> (r: String)
    ensures
        r@ == trim_parse_message_spec(msg@),
{
    let parts = split_commas(msg);
    let n = parts.len();
    if n >= 4 {
        let begin: &str = parts[n - 3].as_str();
        let end: &str = parts[n - 2].as_str();
        let blen = begin.unicode_len();
        let elen = end.unicode_len();
        proof {
            assert(begin@ == strings_view(parts@)[n - 3]);
            assert(end@ == strings_view(parts@)[n - 2]);
        }
        if blen >= 1 && elen >= 3 {
            let mut r = String::from_str("Parse error\n");
            r.append(begin.substring_char(1, blen));
            r.append(",");
            r.append(end.substring_char(0, elen - 3));
            proof {
                assert(begin@.subrange(1, blen as int) =~= begin@.skip(1));
            }
            r
        } else {
            String::from_str(msg)
        }
    } else {
        String::from_str(msg)
    }
}

/// The message shown for each kind of syntax failure: parse errors are
/// trimmed to their positions, mismatched or unclosed diagrams get a fixed
/// explanation, and the remaining kinds surface their own message.
pub open spec fn format_parse_failure_spec(kind: ParseFailureKind, msg: Seq<char>) -> Seq<char> {
    match kind {
        ParseFailureKind::Parse => trim_parse_message_spec(msg),
        ParseFailureKind::PathResolver => msg,
        ParseFailureKind::DiagramKindNotMatch => "The diagram kind in the start keyword and the diagram kind in the end keyword are not match"@,
        ParseFailureKind::ContentUnclosed => "An end keyword is not found in PlantUmlContent"@,
        ParseFailureKind::IsNotBlockComment => "An end keyword is not found in PlantUmlContent"@,
        ParseFailureKind::Unreachable => msg,
    }
}

/// Renders one syntax failure as the diagnostic the user sees.
pub fn format_parse_failure(kind: ParseFailureKind, msg: &str) -> (r: String)
    ensures
        r@ == format_parse_failure_spec(kind, msg@),
{
    match kind {
        ParseFailureKind::Parse => trim_parse_message(msg),
        ParseFailureKind::PathResolver => String::from_str(msg),
        ParseFailureKind::DiagramKindNotMatch => String::from_str(
            "The diagram kind in the start keyword and the diagram kind in the end keyword are not match",
        ),
        ParseFailureKind::ContentUnclosed => String::from_str(
            "An end keyword is not found in PlantUmlContent",
        ),
        ParseFailureKind::IsNotBlockComment => String::from_str(
            "An end keyword is not found in PlantUmlContent",
        ),
        ParseFailureKind::Unreachable => String::from_str(msg),
    }
}

/// Which diagnostic a failed render surfaces: when the document does not
/// even parse, the syntax failure's formatted message; when it parses, the
/// external tool's standard-error text verbatim.
pub open spec fn select_diagnostic_spec(
    stderr: Seq<char>,
    parse: Result<(), (ParseFailureKind, Seq<char>)>,
) -> Seq<char> {
    match parse {
        Ok(_) => stderr,
        Err((kind, msg)) => format_parse_failure_spec(kind, msg),
    }
}

/// The diagnostic for a render that failed on this document with this
/// standard-error text.
pub open spec fn render_failure_diagnostic_spec(doc: Seq<char>, stderr: Seq<char>) -> Seq<char> {
    select_diagnostic_spec(stderr, pmu_parse(doc))
}

/// Re-parses a document whose render failed and picks the diagnostic to
/// surface: the syntax parser's formatted failure if the document does not
/// parse, else the external tool's raw standard-error text.
pub fn diagnose_render_failure(document: &str, stderr: &str) -> (r: String)
    ensures
        r@ == render_failure_diagnostic_spec(document@, stderr@),
{
    match parse_document(document) {
        Ok(_) => String::from_str(stderr),
        Err((kind, msg)) => format_parse_failure(kind, msg.as_str()),
    }
}

} // verus!
