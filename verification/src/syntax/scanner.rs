//! Scanner for iCalendar content lines.
//!
//! Converts the token stream of the lexer into content lines:
//!
//! ```text
//! contentline = name *(";" param) ":" value CRLF
//! ```
//!
//! A line that cannot be read is kept, with its error, and scanning goes on
//! with the next line.

use vstd::prelude::*;
use vstd::string::StringSliceAdditionalSpecFns;
use vstd::string::StringExecFns;

use crate::string_storage::{Span, SpannedSegments, segments_bytes};
use crate::syntax::ParseOptions;
use crate::syntax::lexer::{SpannedToken, Token};

verus! {

/// A scanned iCalendar content line.
#[derive(Debug)]
pub struct ContentLine<'src> {
    /// Property name (e.g., "DTSTART", "SUMMARY")
    pub name: SpannedSegments<'src>,
    /// Property parameters (semicolon-separated)
    pub parameters: Vec<ScannedParameter<'src>>,
    /// Property value
    pub value: SpannedSegments<'src>,
    /// Span of the entire content line
    pub span: Span,
    /// Error information if parsing this line failed
    pub error: Option<ContentLineError>,
}

impl<'src> ContentLine<'src> {
    /// Check if this content line is valid (no errors).
    pub fn is_valid(&self) -> (r: bool)
        ensures
            r == (self.error is None),
    {
        self.error.is_none()
    }
}

/// A scanned parameter from a content line: `name=value` or `name=value1,value2`.
#[derive(Debug)]
pub struct ScannedParameter<'src> {
    /// Parameter name (e.g., "TZID", "VALUE")
    pub name: SpannedSegments<'src>,
    /// Parameter values (comma-separated)
    pub values: Vec<ScannedParameterValue<'src>>,
    /// Span of the entire parameter
    pub span: Span,
}

/// A single scanned parameter value.
#[derive(Debug)]
pub struct ScannedParameterValue<'src> {
    /// The parameter value
    pub value: SpannedSegments<'src>,
    /// Whether the value was quoted in the source
    pub quoted: bool,
    /// Span of this value
    pub span: Span,
}

/// Errors that can occur when scanning a content line.
#[derive(Debug)]
pub enum ContentLineError {
    /// Missing colon separator.
    MissingColon {
        /// Span where colon was expected
        expected_at: Span,
        /// Description of what was found instead
        found: Option<String>,
    },
    /// Empty content line (no name).
    EmptyLine {
        /// Span of the empty line
        span: Span,
    },
    /// Invalid parameter syntax.
    InvalidParameter {
        /// Span of the invalid parameter
        span: Span,
        /// Specific error details
        kind: ParameterErrorKind,
    },
    /// Malformed line.
    MalformedLine {
        /// Span of the malformed content
        span: Span,
        /// Description of the issue
        message: String,
    },
}

impl Clone for ContentLineError {
    fn clone(&self) -> (r: Self)
        ensures
            r.view() == self.view(),
    {
        match self {
            ContentLineError::MissingColon { expected_at, found } => ContentLineError::MissingColon {
                expected_at: *expected_at,
                found: match found {
                    Some(s) => Some(s.clone()),
                    None => None,
                },
            },
            ContentLineError::EmptyLine { span } => ContentLineError::EmptyLine { span: *span },
            ContentLineError::InvalidParameter { span, kind } => ContentLineError::InvalidParameter {
                span: *span,
                kind: *kind,
            },
            ContentLineError::MalformedLine { span, message } => ContentLineError::MalformedLine {
                span: *span,
                message: message.clone(),
            },
        }
    }
}

/// The message of a content line error.
pub open spec fn line_error_message(e: LineErrorV) -> Seq<char> {
    match e {
        LineErrorV::MissingColon { .. } => "missing colon in property"@,
        LineErrorV::EmptyLine { .. } => "empty content line"@,
        LineErrorV::InvalidParameter { kind, .. } => match kind {
            ParameterErrorKind::MissingEquals => "missing equals in parameter"@,
            ParameterErrorKind::MissingValue => "missing parameter value"@,
            ParameterErrorKind::EmptyName => "empty parameter name"@,
            ParameterErrorKind::UnterminatedQuote => "unterminated quoted string"@,
        },
        LineErrorV::MalformedLine { message, .. } => message,
    }
}

impl ContentLineError {
    /// The message of this error.
    pub fn to_string(&self) -> (r: String)
        ensures
            r@ == line_error_message(self.view()),
    {
        match self {
            ContentLineError::MissingColon { .. } => "missing colon in property".to_owned(),
            ContentLineError::EmptyLine { .. } => "empty content line".to_owned(),
            ContentLineError::InvalidParameter { kind, .. } => match kind {
                ParameterErrorKind::MissingEquals => "missing equals in parameter".to_owned(),
                ParameterErrorKind::MissingValue => "missing parameter value".to_owned(),
                ParameterErrorKind::EmptyName => "empty parameter name".to_owned(),
                ParameterErrorKind::UnterminatedQuote => "unterminated quoted string".to_owned(),
            },
            ContentLineError::MalformedLine { message, .. } => message.clone(),
        }
    }
}

/// Specific parameter parsing errors.
#[derive(Debug, Clone, Copy, PartialEq, Eq)]
pub enum ParameterErrorKind {
    /// Missing equals sign, as in `TZID America/New_York`
    MissingEquals,
    /// Missing parameter value, as in `TZID=`
    MissingValue,
    /// Empty parameter name, as in `;=value`
    EmptyName,
    /// Unterminated quoted string, as in `PARAM="unclosed value`
    UnterminatedQuote,
}

/// Result of scanning content lines.
#[derive(Debug)]
pub struct ScanResult<'src> {
    /// All scanned content lines (including ones with errors)
    pub lines: Vec<ContentLine<'src>>,
    /// Whether any errors were encountered
    pub has_errors: bool,
}

// ---------------------------------------------------------------------------
// Abstract views
// ---------------------------------------------------------------------------

/// A parameter value, as its segments, quoting and span.
#[verifier::ext_equal]
pub struct ParamValueV<'src> {
    pub value: Seq<(&'src str, Span)>,
    pub quoted: bool,
    pub span: Span,
}

/// A parameter, as its name segments, values and span.
#[verifier::ext_equal]
pub struct ParamV<'src> {
    pub name: Seq<(&'src str, Span)>,
    pub values: Seq<ParamValueV<'src>>,
    pub span: Span,
}

/// A content line error, with its messages as character sequences.
#[verifier::ext_equal]
pub enum LineErrorV {
    MissingColon { expected_at: Span, found: Option<Seq<char>> },
    EmptyLine { span: Span },
    InvalidParameter { span: Span, kind: ParameterErrorKind },
    MalformedLine { span: Span, message: Seq<char> },
}

/// A content line, as segments, parameters, span and error.
#[verifier::ext_equal]
pub struct LineV<'src> {
    pub name: Seq<(&'src str, Span)>,
    pub params: Seq<ParamV<'src>>,
    pub value: Seq<(&'src str, Span)>,
    pub span: Span,
    pub error: Option<LineErrorV>,
}

impl<'src> ScannedParameterValue<'src> {
    pub open spec fn view(&self) -> ParamValueV<'src> {
        ParamValueV { value: self.value.segs(), quoted: self.quoted, span: self.span }
    }
}

impl<'src> ScannedParameter<'src> {
    pub open spec fn view(&self) -> ParamV<'src> {
        ParamV {
            name: self.name.segs(),
            values: self.values@.map_values(|v: ScannedParameterValue<'src>| v.view()),
            span: self.span,
        }
    }
}

impl ContentLineError {
    pub open spec fn view(&self) -> LineErrorV {
        match self {
            ContentLineError::MissingColon { expected_at, found } => LineErrorV::MissingColon {
                expected_at: *expected_at,
                found: match found {
                    Some(s) => Some(s@),
                    None => None,
                },
            },
            ContentLineError::EmptyLine { span } => LineErrorV::EmptyLine { span: *span },
            ContentLineError::InvalidParameter { span, kind } => LineErrorV::InvalidParameter {
                span: *span,
                kind: *kind,
            },
            ContentLineError::MalformedLine { span, message } => LineErrorV::MalformedLine {
                span: *span,
                message: message@,
            },
        }
    }
}

impl<'src> ContentLine<'src> {
    pub open spec fn view(&self) -> LineV<'src> {
        LineV {
            name: self.name.segs(),
            params: self.parameters@.map_values(|p: ScannedParameter<'src>| p.view()),
            value: self.value.segs(),
            span: self.span,
            error: match self.error {
                Some(e) => Some(e.view()),
                None => None,
            },
        }
    }
}

// ---------------------------------------------------------------------------
// The grammar of content lines, over the token sequence
// ---------------------------------------------------------------------------

/// The text that a token contributes to a name or value.
pub open spec fn token_text<'a>(t: Token<'a>) -> &'a str {
    match t {
        Token::Word(s) => s,
        Token::Symbol(s) => s,
        Token::UnicodeText(s) => s,
        Token::Comma => ",",
        Token::Colon => ":",
        Token::Semicolon => ";",
        Token::Equal => "=",
        Token::DQuote => "\"",
        _ => "",
    }
}

/// The printed form of a token, used in error messages.
pub open spec fn token_debug(t: Token) -> Seq<char> {
    match t {
        Token::DQuote => "DQuote"@,
        Token::Comma => "Comma"@,
        Token::Colon => "Colon"@,
        Token::Semicolon => "Semicolon"@,
        Token::Equal => "Equal"@,
        Token::Symbol(s) => "Symbol("@ + s@ + ")"@,
        Token::Newline => "Newline"@,
        Token::Word(s) => "Word("@ + s@ + ")"@,
        Token::UnicodeText(s) => "UnicodeText("@ + s@ + ")"@,
        Token::Error => "Error"@,
    }
}

/// The message of the error reported for a bare LF in strict mode.
pub open spec fn bare_lf_message() -> Seq<char> {
    "bare LF (line feed without carriage return) is not allowed"@
}

/// A line feed that is not preceded by a carriage return (lexed as an error).
pub open spec fn is_bare_lf(bytes: Seq<u8>, t: SpannedToken) -> bool {
    t.0 is Error && t.1.start < bytes.len() && bytes[t.1.start as int] == 0x0a
}

/// A token that ends a content line: CRLF, or a bare LF.
pub open spec fn is_line_end(bytes: Seq<u8>, t: SpannedToken) -> bool {
    t.0 is Newline || is_bare_lf(bytes, t)
}

/// The kinds of token at which a search stops.
#[derive(Clone, Copy)]
pub enum Stop {
    /// anything but a word
    NotWord,
    /// a line end
    LineEnd,
    /// one of `;` `:` `,` `=` or a line end
    ValueSeparator,
    /// a double quote
    Quote,
}

pub open spec fn stops_at(bytes: Seq<u8>, t: SpannedToken, s: Stop) -> bool {
    match s {
        Stop::NotWord => !(t.0 is Word),
        Stop::LineEnd => is_line_end(bytes, t),
        Stop::ValueSeparator => t.0 is Semicolon || t.0 is Colon || t.0 is Comma || t.0 is Equal
            || is_line_end(bytes, t),
        Stop::Quote => t.0 is DQuote,
    }
}

/// The first position at or after `pos` where the search stops (or the end).
pub open spec fn find_stop(bytes: Seq<u8>, toks: Seq<SpannedToken>, pos: int, s: Stop) -> int
    decreases toks.len() - pos,
{
    if 0 <= pos < toks.len() && !stops_at(bytes, toks[pos], s) {
        find_stop(bytes, toks, pos + 1, s)
    } else {
        pos
    }
}

/// The position after the end of the current line.
pub open spec fn skip_line(bytes: Seq<u8>, toks: Seq<SpannedToken>, pos: int) -> int {
    let e = find_stop(bytes, toks, pos, Stop::LineEnd);
    if e < toks.len() {
        e + 1
    } else {
        e
    }
}

/// The segments contributed by the tokens in `[from, to)`; with `filter`,
/// tokens without text contribute nothing.
pub open spec fn range_segs<'src>(
    toks: Seq<SpannedToken<'src>>,
    from: int,
    to: int,
    filter: bool,
) -> Seq<(&'src str, Span)>
    decreases to - from,
{
    if to <= from {
        Seq::empty()
    } else {
        let t = toks[to - 1];
        let rest = range_segs(toks, from, to - 1, filter);
        if filter && token_text(t.0)@.len() == 0 {
            rest
        } else {
            rest.push((token_text(t.0), t.1))
        }
    }
}

/// A parameter value at `pos`: quoted up to the closing quote, or unquoted up
/// to the next separator. Returns the value and the position after it.
pub open spec fn scan_param_value<'src>(
    bytes: Seq<u8>,
    toks: Seq<SpannedToken<'src>>,
    pos: int,
) -> (Result<Option<ParamValueV<'src>>, ParameterErrorKind>, int) {
    if pos < 0 || pos >= toks.len() {
        (Ok(None), pos)
    } else {
        let start = toks[pos].1.start;
        if toks[pos].0 is DQuote {
            let q = find_stop(bytes, toks, pos + 1, Stop::Quote);
            if q >= toks.len() {
                (Err(ParameterErrorKind::UnterminatedQuote), toks.len() as int)
            } else {
                (
                    Ok(
                        Some(
                            ParamValueV {
                                value: range_segs(toks, pos + 1, q, true),
                                quoted: true,
                                span: Span { start, end: toks[q].1.end },
                            },
                        ),
                    ),
                    q + 1,
                )
            }
        } else {
            let e = find_stop(bytes, toks, pos, Stop::ValueSeparator);
            let segs = range_segs(toks, pos, e, true);
            if segs.len() == 0 {
                (Ok(None), e)
            } else {
                (
                    Ok(
                        Some(
                            ParamValueV {
                                value: segs,
                                quoted: false,
                                span: Span { start, end: segs.last().1.end },
                            },
                        ),
                    ),
                    e,
                )
            }
        }
    }
}

/// The comma-separated values of a parameter, starting at `pos`.
pub open spec fn scan_param_values<'src>(
    bytes: Seq<u8>,
    toks: Seq<SpannedToken<'src>>,
    pos: int,
) -> (Result<Seq<ParamValueV<'src>>, ParameterErrorKind>, int)
    decreases toks.len() - pos,
{
    let (r, p1) = scan_param_value(bytes, toks, pos);
    proof {
        lemma_scan_param_value_bounds(bytes, toks, pos);
    }
    match r {
        Err(k) => (Err(k), p1),
        Ok(None) => (Ok(Seq::empty()), p1),
        Ok(Some(v)) => if pos < p1 < toks.len() && toks[p1].0 is Comma {
            let (rest, p2) = scan_param_values(bytes, toks, p1 + 1);
            match rest {
                Ok(vs) => (Ok(seq![v] + vs), p2),
                Err(k) => (Err(k), p2),
            }
        } else {
            (Ok(seq![v]), p1)
        },
    }
}

/// A parameter `name=value,...` at `pos`, and the position after it.
pub open spec fn scan_parameter<'src>(
    bytes: Seq<u8>,
    toks: Seq<SpannedToken<'src>>,
    pos: int,
) -> (Result<ParamV<'src>, ParameterErrorKind>, int) {
    if pos < 0 || pos >= toks.len() {
        (Err(ParameterErrorKind::EmptyName), pos)
    } else {
        let param_start = toks[pos].1.start;
        let ne = find_stop(bytes, toks, pos, Stop::NotWord);
        if ne == pos {
            (Err(ParameterErrorKind::EmptyName), pos)
        } else if ne >= toks.len() {
            (Err(ParameterErrorKind::MissingEquals), ne)
        } else if !(toks[ne].0 is Equal) {
            (Err(ParameterErrorKind::MissingEquals), ne)
        } else {
            let (vr, p2) = scan_param_values(bytes, toks, ne + 1);
            match vr {
                Err(k) => (Err(k), p2),
                Ok(vs) => if vs.len() == 0 {
                    (Err(ParameterErrorKind::MissingValue), p2)
                } else {
                    (
                        Ok(
                            ParamV {
                                name: range_segs(toks, pos, ne, false),
                                values: vs,
                                span: Span { start: param_start, end: vs.last().span.end },
                            },
                        ),
                        p2,
                    )
                },
            }
        }
    }
}

/// The `;`-introduced parameters from `pos` on: the parameters read, the
/// first error (with the span of its semicolon), and the position after them.
pub open spec fn scan_params<'src>(
    bytes: Seq<u8>,
    toks: Seq<SpannedToken<'src>>,
    pos: int,
) -> (Seq<ParamV<'src>>, Option<(Span, ParameterErrorKind)>, int)
    decreases toks.len() - pos,
{
    if 0 <= pos < toks.len() && toks[pos].0 is Semicolon {
        let (r, p1) = scan_parameter(bytes, toks, pos + 1);
        proof {
            lemma_scan_parameter_bounds(bytes, toks, pos + 1);
        }
        match r {
            Ok(pv) => {
                let (rest, err, p2) = scan_params(bytes, toks, p1);
                (seq![pv] + rest, err, p2)
            },
            Err(k) => (Seq::empty(), Some((toks[pos].1, k)), p1),
        }
    } else {
        (Seq::empty(), None, pos)
    }
}

/// One content line starting at `pos` (which holds a token), and the
/// position after it.
pub open spec fn scan_line<'src>(
    bytes: Seq<u8>,
    toks: Seq<SpannedToken<'src>>,
    pos: int,
    strict: bool,
) -> (LineV<'src>, int) {
    let first = toks[pos];
    let line_start = first.1;
    if first.0 is Newline {
        (
            LineV {
                name: Seq::empty(),
                params: Seq::empty(),
                value: Seq::empty(),
                span: first.1,
                error: Some(LineErrorV::EmptyLine { span: first.1 }),
            },
            pos + 1,
        )
    } else {
        let ne = find_stop(bytes, toks, pos, Stop::NotWord);
        let name = range_segs(toks, pos, ne, false);
        let (params, perr, p) = scan_params(bytes, toks, ne);
        match perr {
            Some((semi, kind)) => {
                let e = find_stop(bytes, toks, p, Stop::LineEnd);
                let q = skip_line(bytes, toks, p);
                let line_end = if e < toks.len() {
                    toks[e].1.end
                } else if e > 0 {
                    toks[e - 1].1.end
                } else {
                    line_start.end
                };
                (
                    LineV {
                        name,
                        params,
                        value: Seq::empty(),
                        span: Span { start: line_start.start, end: line_end },
                        error: Some(LineErrorV::InvalidParameter { span: semi, kind }),
                    },
                    q,
                )
            },
            None => if p >= toks.len() {
                (
                    LineV {
                        name,
                        params,
                        value: Seq::empty(),
                        span: line_start,
                        error: Some(
                            LineErrorV::MissingColon {
                                expected_at: Span {
                                    start: line_start.end,
                                    end: if line_start.end < usize::MAX {
                                        (line_start.end + 1) as usize
                                    } else {
                                        line_start.end
                                    },
                                },
                                found: None,
                            },
                        ),
                    },
                    p,
                )
            } else if toks[p].0 is Colon {
                let ve = find_stop(bytes, toks, p + 1, Stop::LineEnd);
                let value = range_segs(toks, p + 1, ve, true);
                let value_end = if value.len() > 0 {
                    toks[ve - 1].1.end
                } else {
                    0
                };
                if ve < toks.len() {
                    (
                        LineV {
                            name,
                            params,
                            value,
                            span: Span { start: line_start.start, end: toks[ve].1.end },
                            error: if strict && is_bare_lf(bytes, toks[ve]) {
                                Some(
                                    LineErrorV::MalformedLine {
                                        span: toks[ve].1,
                                        message: bare_lf_message(),
                                    },
                                )
                            } else {
                                None
                            },
                        },
                        ve + 1,
                    )
                } else {
                    (
                        LineV {
                            name,
                            params,
                            value,
                            span: Span {
                                start: line_start.start,
                                end: if value_end > 0 {
                                    value_end
                                } else {
                                    toks[p].1.end
                                },
                            },
                            error: None,
                        },
                        ve,
                    )
                }
            } else {
                (
                    LineV {
                        name,
                        params,
                        value: Seq::empty(),
                        span: Span { start: line_start.start, end: toks[p].1.end },
                        error: Some(
                            LineErrorV::MissingColon {
                                expected_at: toks[p].1,
                                found: Some(token_debug(toks[p].0)),
                            },
                        ),
                    },
                    skip_line(bytes, toks, p),
                )
            },
        }
    }
}

/// All content lines of the tokens from `pos` on.
pub open spec fn scan_lines_from<'src>(
    bytes: Seq<u8>,
    toks: Seq<SpannedToken<'src>>,
    pos: int,
    strict: bool,
) -> Seq<LineV<'src>>
    decreases toks.len() - pos,
{
    if pos < 0 || pos >= toks.len() {
        Seq::empty()
    } else {
        let (line, next) = scan_line(bytes, toks, pos, strict);
        proof {
            lemma_scan_line_bounds(bytes, toks, pos, strict);
        }
        if next > pos {
            seq![line] + scan_lines_from(bytes, toks, next, strict)
        } else {
            seq![line]
        }
    }
}

// ---------------------------------------------------------------------------
// Position lemmas
// ---------------------------------------------------------------------------

pub proof fn lemma_find_stop(bytes: Seq<u8>, toks: Seq<SpannedToken>, pos: int, s: Stop)
    requires
        0 <= pos <= toks.len(),
    ensures
        pos <= find_stop(bytes, toks, pos, s) <= toks.len(),
        forall|i: int|
            pos <= i < find_stop(bytes, toks, pos, s) ==> !#[trigger] stops_at(bytes, toks[i], s),
        find_stop(bytes, toks, pos, s) < toks.len() ==> stops_at(
            bytes,
            toks[find_stop(bytes, toks, pos, s)],
            s,
        ),
    decreases toks.len() - pos,
{
    if pos < toks.len() && !stops_at(bytes, toks[pos], s) {
        lemma_find_stop(bytes, toks, pos + 1, s);
    }
}

pub proof fn lemma_scan_param_value_bounds<'src>(
    bytes: Seq<u8>,
    toks: Seq<SpannedToken<'src>>,
    pos: int,
)
    ensures
        0 <= pos <= toks.len() ==> pos <= scan_param_value(bytes, toks, pos).1 <= toks.len(),
        (0 <= pos <= toks.len() && (scan_param_value(bytes, toks, pos).0 matches Ok(Some(_))))
            ==> scan_param_value(bytes, toks, pos).1 > pos,
{
    if 0 <= pos < toks.len() {
        lemma_find_stop(bytes, toks, pos + 1, Stop::Quote);
        lemma_find_stop(bytes, toks, pos, Stop::ValueSeparator);
    }
}

pub proof fn lemma_scan_param_values_bounds<'src>(
    bytes: Seq<u8>,
    toks: Seq<SpannedToken<'src>>,
    pos: int,
)
    requires
        0 <= pos <= toks.len(),
    ensures
        pos <= scan_param_values(bytes, toks, pos).1 <= toks.len(),
    decreases toks.len() - pos,
{
    lemma_scan_param_value_bounds(bytes, toks, pos);
    let (r, p1) = scan_param_value(bytes, toks, pos);
    if let Ok(Some(v)) = r {
        if pos < p1 < toks.len() && toks[p1].0 is Comma {
            lemma_scan_param_values_bounds(bytes, toks, p1 + 1);
        }
    }
}

/// A parameter's values are all its comma-separated values, quoted or not:
/// the list starts with the value read at `pos`; when a comma follows that
/// value the list goes on with the values read after the comma, and
/// otherwise it ends there. So two values, each followed by something
/// other than a comma after the last, make a list of exactly those two.
pub proof fn lemma_comma_continues_values<'src>(
    bytes: Seq<u8>,
    toks: Seq<SpannedToken<'src>>,
    pos: int,
)
    requires
        0 <= pos <= toks.len(),
    ensures
        ({
            let (r, p1) = scan_param_value(bytes, toks, pos);
            r matches Ok(Some(v)) ==> if p1 < toks.len() && toks[p1].0 is Comma {
                scan_param_values(bytes, toks, pos).0 == match scan_param_values(bytes, toks, p1 + 1).0 {
                    Ok(ws) => Ok(seq![v] + ws),
                    Err(k) => Err::<Seq<ParamValueV<'src>>, ParameterErrorKind>(k),
                }
            } else {
                scan_param_values(bytes, toks, pos).0 == Ok::<Seq<ParamValueV<'src>>, ParameterErrorKind>(seq![v])
            }
        }),
        ({
            let (r, p1) = scan_param_value(bytes, toks, pos);
            let (r2, p2) = scan_param_value(bytes, toks, p1 + 1);
            r matches Ok(Some(v)) ==> (r2 matches Ok(Some(w)) ==> ((p1 < toks.len() && toks[p1].0 is Comma
                && !(p2 < toks.len() && toks[p2].0 is Comma)) ==> scan_param_values(bytes, toks, pos).0 == Ok::<
                Seq<ParamValueV<'src>>,
                ParameterErrorKind,
            >(seq![v, w])))
        }),
{
    lemma_scan_param_value_bounds(bytes, toks, pos);
    let (r, p1) = scan_param_value(bytes, toks, pos);
    if let Ok(Some(v)) = r {
        if p1 < toks.len() && toks[p1].0 is Comma {
            lemma_scan_param_value_bounds(bytes, toks, p1 + 1);
            let (r2, p2) = scan_param_value(bytes, toks, p1 + 1);
            if let Ok(Some(w)) = r2 {
                if !(p2 < toks.len() && toks[p2].0 is Comma) {
                    assert(scan_param_values(bytes, toks, p1 + 1).0 == Ok::<
                        Seq<ParamValueV<'src>>,
                        ParameterErrorKind,
                    >(seq![w]));
                    assert(seq![v] + seq![w] =~= seq![v, w]);
                }
            }
        }
    }
}

pub proof fn lemma_scan_parameter_bounds<'src>(
    bytes: Seq<u8>,
    toks: Seq<SpannedToken<'src>>,
    pos: int,
)
    ensures
        0 <= pos <= toks.len() ==> pos <= scan_parameter(bytes, toks, pos).1 <= toks.len(),
{
    if 0 <= pos < toks.len() {
        lemma_find_stop(bytes, toks, pos, Stop::NotWord);
        let ne = find_stop(bytes, toks, pos, Stop::NotWord);
        if ne < toks.len() {
            lemma_scan_param_values_bounds(bytes, toks, ne + 1);
        }
    }
}

pub proof fn lemma_scan_params_bounds<'src>(bytes: Seq<u8>, toks: Seq<SpannedToken<'src>>, pos: int)
    requires
        0 <= pos <= toks.len(),
    ensures
        pos <= scan_params(bytes, toks, pos).2 <= toks.len(),
        scan_params(bytes, toks, pos).1 is Some ==> scan_params(bytes, toks, pos).2 > pos,
    decreases toks.len() - pos,
{
    if pos < toks.len() && toks[pos].0 is Semicolon {
        lemma_scan_parameter_bounds(bytes, toks, pos + 1);
        let (r, p1) = scan_parameter(bytes, toks, pos + 1);
        if r is Ok {
            lemma_scan_params_bounds(bytes, toks, p1);
        }
    }
}

pub proof fn lemma_scan_line_bounds<'src>(
    bytes: Seq<u8>,
    toks: Seq<SpannedToken<'src>>,
    pos: int,
    strict: bool,
)
    ensures
        0 <= pos < toks.len() ==> pos < scan_line(bytes, toks, pos, strict).1 <= toks.len(),
{
    if 0 <= pos < toks.len() && !(toks[pos].0 is Newline) {
        lemma_find_stop(bytes, toks, pos, Stop::NotWord);
        let ne = find_stop(bytes, toks, pos, Stop::NotWord);
        lemma_scan_params_bounds(bytes, toks, ne);
        let (params, perr, p) = scan_params(bytes, toks, ne);
        lemma_find_stop(bytes, toks, p, Stop::LineEnd);
        if p < toks.len() {
            lemma_find_stop(bytes, toks, p + 1, Stop::LineEnd);
        }
        if ne == pos && p == ne && p < toks.len() {
            assert(!(toks[pos].0 is Word));
        }
    }
}


// ---------------------------------------------------------------------------
// Token sequences that the scanner reads
// ---------------------------------------------------------------------------

/// Tokens with nonempty, ordered, disjoint spans inside a source of `n`
/// bytes, whose texts are no longer than their spans.
pub open spec fn tokens_wf(n: int, toks: Seq<SpannedToken>) -> bool {
    &&& forall|i: int| 0 <= i < toks.len() ==> #[trigger] toks[i].1.start < toks[i].1.end <= n
    &&& forall|i: int, j: int|
        0 <= i < j < toks.len() ==> #[trigger] toks[i].1.end <= #[trigger] toks[j].1.start
    &&& forall|i: int|
        0 <= i < toks.len() ==> token_text(#[trigger] toks[i].0).spec_bytes().len() <= toks[i].1.end
            - toks[i].1.start
}

pub proof fn lemma_range_segs_bytes<'src>(
    n: int,
    toks: Seq<SpannedToken<'src>>,
    from: int,
    to: int,
    filter: bool,
)
    requires
        tokens_wf(n, toks),
        0 <= n,
        0 <= from <= to <= toks.len(),
    ensures
        from < to ==> segments_bytes(range_segs(toks, from, to, filter)).len() <= toks[to - 1].1.end
            - toks[from].1.start,
        segments_bytes(range_segs(toks, from, to, filter)).len() <= n,
        from == to ==> range_segs(toks, from, to, filter).len() == 0,
    decreases to - from,
{
    if from < to {
        lemma_range_segs_bytes(n, toks, from, to - 1, filter);
        let t = toks[to - 1];
        let rest = range_segs(toks, from, to - 1, filter);
        let x = (token_text(t.0), t.1);
        assert(rest.push(x).drop_last() =~= rest);
        assert(toks[to - 1].1.start < toks[to - 1].1.end);
        if from < to - 1 {
            assert(toks[to - 2].1.end <= toks[to - 1].1.start);
        }
        assert(toks[from].1.start < toks[from].1.end <= n);
        assert(toks[to - 1].1.start < toks[to - 1].1.end <= n);
    }
}

// ---------------------------------------------------------------------------
// The scanner
// ---------------------------------------------------------------------------

/// Convert a token to its text representation.
fn token_to_text<'src>(token: Token<'src>) -> (r: &'src str)
    ensures
        r == token_text(token),
{
    match token {
        Token::Word(s) => s,
        Token::Symbol(s) => s,
        Token::UnicodeText(s) => s,
        Token::Comma => ",",
        Token::Colon => ":",
        Token::Semicolon => ";",
        Token::Equal => "=",
        Token::DQuote => "\"",
        _ => "",
    }
}

/// The printed form of a token.
fn describe_token(token: Token) -> (r: String)
    ensures
        r@ == token_debug(token),
{
    match token {
        Token::DQuote => "DQuote".to_owned(),
        Token::Comma => "Comma".to_owned(),
        Token::Colon => "Colon".to_owned(),
        Token::Semicolon => "Semicolon".to_owned(),
        Token::Equal => "Equal".to_owned(),
        Token::Symbol(s) => {
            let mut r = "Symbol(".to_owned();
            r.append(s);
            r.append(")");
            r
        },
        Token::Newline => "Newline".to_owned(),
        Token::Word(s) => {
            let mut r = "Word(".to_owned();
            r.append(s);
            r.append(")");
            r
        },
        Token::UnicodeText(s) => {
            let mut r = "UnicodeText(".to_owned();
            r.append(s);
            r.append(")");
            r
        },
        Token::Error => "Error".to_owned(),
    }
}

fn is_line_end_exec(bytes: &[u8], t: &SpannedToken) -> (r: bool)
    ensures
        r == is_line_end(bytes@, *t),
{
    match t.0 {
        Token::Newline => true,
        Token::Error => t.1.start < bytes.len() && bytes[t.1.start] == 0x0a,
        _ => false,
    }
}

fn stops_at_exec(bytes: &[u8], t: &SpannedToken, s: Stop) -> (r: bool)
    ensures
        r == stops_at(bytes@, *t, s),
{
    match s {
        Stop::NotWord => !matches!(t.0, Token::Word(_)),
        Stop::LineEnd => is_line_end_exec(bytes, t),
        Stop::ValueSeparator => matches!(t.0, Token::Semicolon | Token::Colon | Token::Comma | Token::Equal)
            || is_line_end_exec(bytes, t),
        Stop::Quote => matches!(t.0, Token::DQuote),
    }
}

fn find_stop_exec(bytes: &[u8], toks: &Vec<SpannedToken>, pos: usize, s: Stop) -> (r: usize)
    requires
        pos <= toks@.len(),
    ensures
        r as int == find_stop(bytes@, toks@, pos as int, s),
{
    let mut j = pos;
    while j < toks.len() && !stops_at_exec(bytes, &toks[j], s)
        invariant
            pos <= j <= toks@.len(),
            find_stop(bytes@, toks@, pos as int, s) == find_stop(bytes@, toks@, j as int, s),
        decreases toks@.len() - j,
    {
        j = j + 1;
    }
    j
}

fn collect_segments<'src>(toks: &Vec<SpannedToken<'src>>, from: usize, to: usize, filter: bool) -> (v: Vec<(&'src str, Span)>)
    requires
        from <= to <= toks@.len(),
    ensures
        v@ == range_segs(toks@, from as int, to as int, filter),
{
    let mut v: Vec<(&'src str, Span)> = Vec::new();
    let mut i = from;
    while i < to
        invariant
            from <= i <= to <= toks@.len(),
            v@ == range_segs(toks@, from as int, i as int, filter),
        decreases to - i,
    {
        let t = toks[i];
        let text = token_to_text(t.0);
        if !(filter && text.is_empty()) {
            v.push((text, t.1));
        }
        i = i + 1;
    }
    v
}

/// Segments of the tokens in `[from, to)` as one value.
fn segments_of<'src>(bytes: &[u8], toks: &Vec<SpannedToken<'src>>, from: usize, to: usize, filter: bool) -> (r: SpannedSegments<'src>)
    requires
        tokens_wf(bytes@.len() as int, toks@),
        from <= to <= toks@.len(),
    ensures
        r.segs() == range_segs(toks@, from as int, to as int, filter),
{
    let v = collect_segments(toks, from, to, filter);
    proof {
        lemma_range_segs_bytes(bytes@.len() as int, toks@, from as int, to as int, filter);
    }
    SpannedSegments::new(v)
}

/// Parse property name (the run of word tokens) at `pos`.
fn parse_property_name<'src>(bytes: &[u8], toks: &Vec<SpannedToken<'src>>, pos: usize) -> (r: (SpannedSegments<'src>, usize))
    requires
        tokens_wf(bytes@.len() as int, toks@),
        pos <= toks@.len(),
    ensures
        r.1 as int == find_stop(bytes@, toks@, pos as int, Stop::NotWord),
        r.0.segs() == range_segs(toks@, pos as int, r.1 as int, false),
{
    let ne = find_stop_exec(bytes, toks, pos, Stop::NotWord);
    proof {
        lemma_find_stop(bytes@, toks@, pos as int, Stop::NotWord);
    }
    (segments_of(bytes, toks, pos, ne, false), ne)
}

pub open spec fn opt_value_view<'src>(r: Result<Option<ScannedParameterValue<'src>>, ParameterErrorKind>) -> Result<Option<ParamValueV<'src>>, ParameterErrorKind> {
    match r {
        Ok(Some(v)) => Ok(Some(v.view())),
        Ok(None) => Ok(None),
        Err(k) => Err(k),
    }
}

/// Parse a single parameter value at `pos`.
fn parse_parameter_value<'src>(bytes: &[u8], toks: &Vec<SpannedToken<'src>>, pos: usize) -> (r: (Result<Option<ScannedParameterValue<'src>>, ParameterErrorKind>, usize))
    requires
        tokens_wf(bytes@.len() as int, toks@),
        pos <= toks@.len(),
    ensures
        (opt_value_view(r.0), r.1 as int) == scan_param_value(bytes@, toks@, pos as int),
{
    if pos >= toks.len() {
        return (Ok(None), pos);
    }
    let start = toks[pos].1.start;
    if matches!(toks[pos].0, Token::DQuote) {
        let q = find_stop_exec(bytes, toks, pos + 1, Stop::Quote);
        proof {
            lemma_find_stop(bytes@, toks@, pos + 1, Stop::Quote);
        }
        if q >= toks.len() {
            return (Err(ParameterErrorKind::UnterminatedQuote), toks.len());
        }
        let value = segments_of(bytes, toks, pos + 1, q, true);
        let v = ScannedParameterValue { value, quoted: true, span: Span { start, end: toks[q].1.end } };
        (Ok(Some(v)), q + 1)
    } else {
        let e = find_stop_exec(bytes, toks, pos, Stop::ValueSeparator);
        proof {
            lemma_find_stop(bytes@, toks@, pos as int, Stop::ValueSeparator);
        }
        let segs = collect_segments(toks, pos, e, true);
        if segs.len() == 0 {
            return (Ok(None), e);
        }
        let end = segs[segs.len() - 1].1.end;
        proof {
            lemma_range_segs_bytes(bytes@.len() as int, toks@, pos as int, e as int, true);
        }
        let value = SpannedSegments::new(segs);
        (Ok(Some(ScannedParameterValue { value, quoted: false, span: Span { start, end } })), e)
    }
}

pub open spec fn values_view<'src>(vs: Seq<ScannedParameterValue<'src>>) -> Seq<ParamValueV<'src>> {
    vs.map_values(|v: ScannedParameterValue<'src>| v.view())
}

/// Prefix the values read so far to the result of reading the rest.
pub open spec fn prefix_values<'src>(done: Seq<ParamValueV<'src>>, r: (Result<Seq<ParamValueV<'src>>, ParameterErrorKind>, int)) -> (Result<Seq<ParamValueV<'src>>, ParameterErrorKind>, int) {
    match r.0 {
        Ok(vs) => (Ok(done + vs), r.1),
        Err(k) => (Err(k), r.1),
    }
}

/// Parse the comma-separated values of a parameter at `pos`.
fn parse_parameter_values<'src>(bytes: &[u8], toks: &Vec<SpannedToken<'src>>, pos: usize) -> (r: (Result<Vec<ScannedParameterValue<'src>>, ParameterErrorKind>, usize))
    requires
        tokens_wf(bytes@.len() as int, toks@),
        pos <= toks@.len(),
    ensures
        (match r.0 {
            Ok(vs) => Ok(values_view(vs@)),
            Err(k) => Err(k),
        }, r.1 as int) == scan_param_values(bytes@, toks@, pos as int),
{
    let mut values: Vec<ScannedParameterValue<'src>> = Vec::new();
    let mut cur = pos;
    loop
        invariant
            tokens_wf(bytes@.len() as int, toks@),
            pos <= cur <= toks@.len(),
            scan_param_values(bytes@, toks@, pos as int) == prefix_values(values_view(values@), scan_param_values(bytes@, toks@, cur as int)),
        decreases toks@.len() - cur,
    {
        let ghost old_values = values@;
        proof {
            lemma_scan_param_value_bounds(bytes@, toks@, cur as int);
        }
        let (r, p1) = parse_parameter_value(bytes, toks, cur);
        match r {
            Err(k) => {
                assert(values_view(values@) + Seq::<ParamValueV<'src>>::empty() =~= values_view(values@));
                return (Err(k), p1);
            },
            Ok(None) => {
                assert(values_view(values@) + Seq::<ParamValueV<'src>>::empty() =~= values_view(values@));
                return (Ok(values), p1);
            },
            Ok(Some(v)) => {
                let ghost vv = v.view();
                values.push(v);
                assert(values_view(values@) =~= values_view(old_values).push(vv));
                if cur < p1 && p1 < toks.len() && matches!(toks[p1].0, Token::Comma) {
                    proof {
                        let rest = scan_param_values(bytes@, toks@, p1 + 1);
                        match rest.0 {
                            Ok(vs) => {
                                assert(values_view(old_values) + (seq![vv] + vs) =~= values_view(values@) + vs);
                            },
                            Err(k) => {},
                        }
                    }
                    cur = p1 + 1;
                } else {
                    assert(values_view(old_values) + seq![vv] =~= values_view(values@));
                    return (Ok(values), p1);
                }
            },
        }
    }
}

pub open spec fn param_result_view<'src>(r: Result<ScannedParameter<'src>, ParameterErrorKind>) -> Result<ParamV<'src>, ParameterErrorKind> {
    match r {
        Ok(p) => Ok(p.view()),
        Err(k) => Err(k),
    }
}

/// Parse a single parameter `name=value,...` at `pos`.
fn parse_parameter<'src>(bytes: &[u8], toks: &Vec<SpannedToken<'src>>, pos: usize) -> (r: (Result<ScannedParameter<'src>, ParameterErrorKind>, usize))
    requires
        tokens_wf(bytes@.len() as int, toks@),
        pos <= toks@.len(),
    ensures
        (param_result_view(r.0), r.1 as int) == scan_parameter(bytes@, toks@, pos as int),
{
    if pos >= toks.len() {
        return (Err(ParameterErrorKind::EmptyName), pos);
    }
    let param_start = toks[pos].1.start;
    let (name, ne) = parse_property_name(bytes, toks, pos);
    proof {
        lemma_find_stop(bytes@, toks@, pos as int, Stop::NotWord);
    }
    if ne == pos {
        return (Err(ParameterErrorKind::EmptyName), pos);
    }
    if ne >= toks.len() {
        return (Err(ParameterErrorKind::MissingEquals), ne);
    }
    if !matches!(toks[ne].0, Token::Equal) {
        return (Err(ParameterErrorKind::MissingEquals), ne);
    }
    let (vr, p2) = parse_parameter_values(bytes, toks, ne + 1);
    match vr {
        Err(k) => (Err(k), p2),
        Ok(values) => {
            if values.len() == 0 {
                return (Err(ParameterErrorKind::MissingValue), p2);
            }
            let end = values[values.len() - 1].span.end;
            let ghost vs = values@;
            let p = ScannedParameter { name, values, span: Span { start: param_start, end } };
            assert(p.view().values.last() == vs.last().view());
            (Ok(p), p2)
        },
    }
}

pub open spec fn params_view<'src>(ps: Seq<ScannedParameter<'src>>) -> Seq<ParamV<'src>> {
    ps.map_values(|p: ScannedParameter<'src>| p.view())
}

pub open spec fn prefix_params<'src>(done: Seq<ParamV<'src>>, r: (Seq<ParamV<'src>>, Option<(Span, ParameterErrorKind)>, int)) -> (Seq<ParamV<'src>>, Option<(Span, ParameterErrorKind)>, int) {
    (done + r.0, r.1, r.2)
}

/// Parse the `;`-introduced parameters at `pos`.
fn parse_parameters<'src>(bytes: &[u8], toks: &Vec<SpannedToken<'src>>, pos: usize) -> (r: (Vec<ScannedParameter<'src>>, Option<(Span, ParameterErrorKind)>, usize))
    requires
        tokens_wf(bytes@.len() as int, toks@),
        pos <= toks@.len(),
    ensures
        (params_view(r.0@), r.1, r.2 as int) == scan_params(bytes@, toks@, pos as int),
{
    let mut params: Vec<ScannedParameter<'src>> = Vec::new();
    let mut cur = pos;
    while cur < toks.len() && matches!(toks[cur].0, Token::Semicolon)
        invariant
            tokens_wf(bytes@.len() as int, toks@),
            pos <= cur <= toks@.len(),
            scan_params(bytes@, toks@, pos as int) == prefix_params(params_view(params@), scan_params(bytes@, toks@, cur as int)),
        decreases toks@.len() - cur,
    {
        let semi_span = toks[cur].1;
        proof {
            lemma_scan_parameter_bounds(bytes@, toks@, cur + 1);
        }
        let (r, p1) = parse_parameter(bytes, toks, cur + 1);
        match r {
            Ok(param) => {
                let ghost old_params = params@;
                let ghost pv = param.view();
                params.push(param);
                proof {
                    let rest = scan_params(bytes@, toks@, p1 as int);
                    assert(params_view(params@) =~= params_view(old_params).push(pv));
                    assert(params_view(old_params) + (seq![pv] + rest.0) =~= params_view(params@) + rest.0);
                }
                cur = p1;
            },
            Err(k) => {
                assert(params_view(params@) + Seq::<ParamV<'src>>::empty() =~= params_view(params@));
                return (params, Some((semi_span, k)), p1);
            },
        }
    }
    assert(params_view(params@) + Seq::<ParamV<'src>>::empty() =~= params_view(params@));
    (params, None, cur)
}

/// Consume all tokens until a line end is found (including it).
fn consume_until_newline(bytes: &[u8], toks: &Vec<SpannedToken>, pos: usize) -> (r: usize)
    requires
        pos <= toks@.len(),
    ensures
        r as int == skip_line(bytes@, toks@, pos as int),
{
    let e = find_stop_exec(bytes, toks, pos, Stop::LineEnd);
    proof {
        lemma_find_stop(bytes@, toks@, pos as int, Stop::LineEnd);
    }
    if e < toks.len() {
        e + 1
    } else {
        e
    }
}

/// Parse value content (everything until the line end) starting at `pos`.
/// Returns the value, the end position of its last token, and the position
/// of the line end.
fn parse_value<'src>(bytes: &[u8], toks: &Vec<SpannedToken<'src>>, pos: usize) -> (r: (SpannedSegments<'src>, usize, usize))
    requires
        tokens_wf(bytes@.len() as int, toks@),
        pos <= toks@.len(),
    ensures
        r.2 as int == find_stop(bytes@, toks@, pos as int, Stop::LineEnd),
        r.0.segs() == range_segs(toks@, pos as int, r.2 as int, true),
        r.1 == (if r.0.segs().len() > 0 {
            toks@[r.2 - 1].1.end
        } else {
            0
        }),
{
    let ve = find_stop_exec(bytes, toks, pos, Stop::LineEnd);
    proof {
        lemma_find_stop(bytes@, toks@, pos as int, Stop::LineEnd);
        lemma_range_segs_bytes(bytes@.len() as int, toks@, pos as int, ve as int, true);
    }
    let value = segments_of(bytes, toks, pos, ve, true);
    if value.is_empty() {
        proof {
            lemma_empty_bytes_no_segments(toks@, pos as int, ve as int);
        }
        return (value, 0, ve);
    }
    (value, toks[ve - 1].1.end, ve)
}

/// Filtered segments that hold no bytes are no segments at all.
proof fn lemma_empty_bytes_no_segments<'src>(toks: Seq<SpannedToken<'src>>, from: int, to: int)
    requires
        segments_bytes(range_segs(toks, from, to, true)).len() == 0,
    ensures
        range_segs(toks, from, to, true).len() == 0,
    decreases to - from,
{
    if from < to {
        let t = toks[to - 1];
        let rest = range_segs(toks, from, to - 1, true);
        if token_text(t.0)@.len() != 0 {
            let x = (token_text(t.0), t.1);
            assert(rest.push(x).drop_last() =~= rest);
            vstd::utf8::encode_utf8_first_scalar(x.0@);
            assert(x.0.spec_bytes().len() > 0);
        } else {
            lemma_empty_bytes_no_segments(toks, from, to - 1);
        }
    }
}

/// Parse the structure of a content line starting at `pos`.
fn parse_content_line_structure<'src>(bytes: &[u8], toks: &Vec<SpannedToken<'src>>, pos: usize, strict: bool) -> (r: (ContentLine<'src>, usize))
    requires
        tokens_wf(bytes@.len() as int, toks@),
        pos < toks@.len(),
        !(toks@[pos as int].0 is Newline),
    ensures
        (r.0.view(), r.1 as int) == scan_line(bytes@, toks@, pos as int, strict),
{
    let line_start = toks[pos].1;
    let (name, ne) = parse_property_name(bytes, toks, pos);
    proof {
        lemma_find_stop(bytes@, toks@, pos as int, Stop::NotWord);
        lemma_scan_params_bounds(bytes@, toks@, ne as int);
    }
    let (parameters, perr, p) = parse_parameters(bytes, toks, ne);
    let ghost spec_line = scan_line(bytes@, toks@, pos as int, strict);
    match perr {
        Some((semi_span, kind)) => {
            let e = find_stop_exec(bytes, toks, p, Stop::LineEnd);
            proof {
                lemma_find_stop(bytes@, toks@, p as int, Stop::LineEnd);
            }
            let q = if e < toks.len() {
                e + 1
            } else {
                e
            };
            let line_end = if e < toks.len() {
                toks[e].1.end
            } else if e > 0 {
                toks[e - 1].1.end
            } else {
                line_start.end
            };
            let line = ContentLine {
                name,
                parameters,
                value: SpannedSegments::empty(),
                span: Span { start: line_start.start, end: line_end },
                error: Some(ContentLineError::InvalidParameter { span: semi_span, kind }),
            };
            assert(line.view() =~= spec_line.0);
            (line, q)
        },
        None => {
            if p >= toks.len() {
                let expected_end = if line_start.end < usize::MAX {
                    line_start.end + 1
                } else {
                    line_start.end
                };
                let line = ContentLine {
                    name,
                    parameters,
                    value: SpannedSegments::empty(),
                    span: line_start,
                    error: Some(ContentLineError::MissingColon {
                        expected_at: Span { start: line_start.end, end: expected_end },
                        found: None,
                    }),
                };
                assert(line.view() =~= spec_line.0);
                (line, p)
            } else if matches!(toks[p].0, Token::Colon) {
                let colon_span = toks[p].1;
                let (value, value_end, ve) = parse_value(bytes, toks, p + 1);
                if ve < toks.len() {
                    let error = if strict && matches!(toks[ve].0, Token::Error) && toks[ve].1.start < bytes.len() && bytes[toks[ve].1.start] == 0x0a {
                        Some(ContentLineError::MalformedLine {
                            span: toks[ve].1,
                            message: "bare LF (line feed without carriage return) is not allowed".to_owned(),
                        })
                    } else {
                        None
                    };
                    let line = ContentLine {
                        name,
                        parameters,
                        value,
                        span: Span { start: line_start.start, end: toks[ve].1.end },
                        error,
                    };
                    assert(line.view() =~= spec_line.0);
                    (line, ve + 1)
                } else {
                    let end = if value_end > 0 {
                        value_end
                    } else {
                        colon_span.end
                    };
                    let line = ContentLine {
                        name,
                        parameters,
                        value,
                        span: Span { start: line_start.start, end },
                        error: None,
                    };
                    assert(line.view() =~= spec_line.0);
                    (line, ve)
                }
            } else {
                let tok = toks[p];
                let found = describe_token(tok.0);
                let q = consume_until_newline(bytes, toks, p);
                let line = ContentLine {
                    name,
                    parameters,
                    value: SpannedSegments::empty(),
                    span: Span { start: line_start.start, end: tok.1.end },
                    error: Some(ContentLineError::MissingColon { expected_at: tok.1, found: Some(found) }),
                };
                assert(line.view() =~= spec_line.0);
                (line, q)
            }
        },
    }
}

/// Scan a single content line starting at `pos` (which holds a token).
fn scan_one_content_line<'src>(bytes: &[u8], toks: &Vec<SpannedToken<'src>>, pos: usize, strict: bool) -> (r: (ContentLine<'src>, usize))
    requires
        tokens_wf(bytes@.len() as int, toks@),
        pos < toks@.len(),
    ensures
        (r.0.view(), r.1 as int) == scan_line(bytes@, toks@, pos as int, strict),
{
    let n = toks.len();
    let first = toks[pos];
    if matches!(first.0, Token::Newline) {
        let line = ContentLine {
            name: SpannedSegments::empty(),
            parameters: Vec::new(),
            value: SpannedSegments::empty(),
            span: first.1,
            error: Some(ContentLineError::EmptyLine { span: first.1 }),
        };
        assert(line.view() =~= scan_line(bytes@, toks@, pos as int, strict).0);
        return (line, pos + 1);
    }
    parse_content_line_structure(bytes, toks, pos, strict)
}

pub open spec fn lines_view<'src>(ls: Seq<ContentLine<'src>>) -> Seq<LineV<'src>> {
    ls.map_values(|l: ContentLine<'src>| l.view())
}

proof fn lemma_push_line<'src>(old_lines: Seq<ContentLine<'src>>, lines: Seq<ContentLine<'src>>, lv: LineV<'src>, rest: Seq<LineV<'src>>)
    requires
        lines.len() == old_lines.len() + 1,
        forall|i: int| 0 <= i < old_lines.len() ==> lines[i] == old_lines[i],
        lines.last().view() == lv,
    ensures
        lines_view(old_lines) + (seq![lv] + rest) == lines_view(lines) + rest,
        (exists|i: int| 0 <= i < lines.len() && #[trigger] lines[i].error is Some) == ((exists|i: int| 0 <= i < old_lines.len() && #[trigger] old_lines[i].error is Some) || lines.last().error is Some),
{
    assert(lines_view(lines) =~= lines_view(old_lines).push(lv));
    assert(lines_view(old_lines) + (seq![lv] + rest) =~= lines_view(lines) + rest);
    if exists|i: int| 0 <= i < old_lines.len() && #[trigger] old_lines[i].error is Some {
        let i = choose|i: int| 0 <= i < old_lines.len() && #[trigger] old_lines[i].error is Some;
        assert(lines[i] == old_lines[i]);
    }
    if exists|i: int| 0 <= i < lines.len() && #[trigger] lines[i].error is Some {
        let i = choose|i: int| 0 <= i < lines.len() && #[trigger] lines[i].error is Some;
        if i < old_lines.len() {
            assert(lines[i] == old_lines[i]);
        }
    }
}

/// Scan a token stream into content lines.
///
/// Every line is kept, with its error if it could not be read; `has_errors`
/// tells whether any line has one.
pub fn scan_content_lines<'src>(src: &'src str, tokens: Vec<SpannedToken<'src>>, options: ParseOptions) -> (r: ScanResult<'src>)
    requires
        tokens_wf(src.spec_bytes().len() as int, tokens@),
    ensures
        lines_view(r.lines@) == scan_lines_from(src.spec_bytes(), tokens@, 0, options.strict_line_endings),
        r.has_errors == exists|i: int| 0 <= i < r.lines@.len() && #[trigger] r.lines@[i].error is Some,
{
    let bytes = src.as_bytes();
    let strict = options.strict_line_endings;
    let mut lines: Vec<ContentLine<'src>> = Vec::new();
    let mut has_errors = false;
    let mut pos: usize = 0;
    while pos < tokens.len()
        invariant
            bytes@ == src.spec_bytes(),
            tokens_wf(bytes@.len() as int, tokens@),
            pos <= tokens@.len(),
            scan_lines_from(bytes@, tokens@, 0, strict) == lines_view(lines@) + scan_lines_from(bytes@, tokens@, pos as int, strict),
            has_errors == exists|i: int| 0 <= i < lines@.len() && #[trigger] lines@[i].error is Some,
        decreases tokens@.len() - pos,
    {
        proof {
            lemma_scan_line_bounds(bytes@, tokens@, pos as int, strict);
        }
        let ghost old_lines = lines@;
        let (line, next) = scan_one_content_line(bytes, &tokens, pos, strict);
        let ghost lv = line.view();
        if line.error.is_some() {
            has_errors = true;
        }
        lines.push(line);
        proof {
            lemma_push_line(old_lines, lines@, lv, scan_lines_from(bytes@, tokens@, next as int, strict));
        }
        pos = next;
    }
    assert(lines_view(lines@) + Seq::<LineV<'src>>::empty() =~= lines_view(lines@));
    ScanResult { lines, has_errors }
}

} // verus!
