//! Syntax analysis for iCalendar text (RFC 5545): the lexer, the content-line
//! scanner and the component tree builder, and the pipeline that joins them.
//!
//! ```text
//! Source Text → Lexer → Token Stream → Scanner → Content Lines → Tree Builder → Component Tree
//! ```

pub mod lexer;
pub mod scanner;
pub mod tree_builder;

pub use lexer::{SpannedToken, Token, TokenKind, tokenize};
pub use scanner::{
    ContentLine, ContentLineError, ParameterErrorKind, ScanResult, ScannedParameter,
    ScannedParameterValue, scan_content_lines,
};
pub use tree_builder::{
    RawComponent, RawParameter, RawParameterValue, RawProperty, TreeBuildError,
    TreeBuilderResult, build_tree, raw_param_agrees,
};

use vstd::prelude::*;
use vstd::string::StringSliceAdditionalSpecFns;

use lexer::{lex, lemma_lex_spans, token_text_matches};
use scanner::{LineErrorV, LineV, lines_view, scan_lines_from, token_text, tokens_wf};
use tree_builder::{CompV, TreeErrV, build_tree_spec, comps_view, errs_view};

verus! {

/// Options for controlling syntax analysis behavior.
#[derive(Debug, Clone, Copy)]
pub struct ParseOptions {
    /// When `true`, bare LF (without preceding CR) is reported as an error.
    ///
    /// RFC 5545 specifies CRLF as the line ending, but many real-world
    /// iCalendar files use bare LF. Default is `false` for compatibility.
    pub strict_line_endings: bool,
}

impl ParseOptions {
    /// Create new parse options with default (lenient) settings.
    pub fn new() -> (r: Self)
        ensures
            !r.strict_line_endings,
    {
        ParseOptions { strict_line_endings: false }
    }

    /// Create new parse options with strict settings.
    pub fn strict() -> (r: Self)
        ensures
            r.strict_line_endings,
    {
        ParseOptions { strict_line_endings: true }
    }

    /// Set whether to enforce strict CRLF line endings.
    pub fn strict_line_endings(self, strict: bool) -> (r: Self)
        ensures
            r.strict_line_endings == strict,
    {
        ParseOptions { strict_line_endings: strict }
    }
}

impl Default for ParseOptions {
    fn default() -> (r: Self)
        ensures
            !r.strict_line_endings,
    {
        ParseOptions::new()
    }
}

/// Unified error type for syntax analysis: errors of the scanner and of the
/// tree builder.
#[derive(Debug)]
pub enum SyntaxError<'src> {
    /// Errors from scanning content lines
    Scanner(ContentLineError),
    /// Errors from building the component tree
    TreeBuilder(TreeBuildError<'src>),
}

impl<'src> SyntaxError<'src> {
    /// The message of this error.
    pub fn to_string(&self) -> (r: String)
        ensures
            r@ == match self.view() {
                SyntaxErrV::Scanner(e) => scanner::line_error_message(e),
                SyntaxErrV::TreeBuilder(e) => tree_builder::tree_error_message(e),
            },
    {
        match self {
            SyntaxError::Scanner(e) => e.to_string(),
            SyntaxError::TreeBuilder(e) => e.to_string(),
        }
    }
}

/// A syntax error, as the view of the error it holds.
pub enum SyntaxErrV<'src> {
    Scanner(LineErrorV),
    TreeBuilder(TreeErrV<'src>),
}

impl<'src> SyntaxError<'src> {
    pub open spec fn view(&self) -> SyntaxErrV<'src> {
        match self {
            SyntaxError::Scanner(e) => SyntaxErrV::Scanner(e.view()),
            SyntaxError::TreeBuilder(e) => SyntaxErrV::TreeBuilder(e.view()),
        }
    }
}

/// The tokens of `src`, as the lexer yields them: kinds and spans as `lex`
/// gives them, and each text the source text under its span.
pub open spec fn tokens_of<'src>(src: &'src str, toks: Seq<SpannedToken<'src>>) -> bool {
    &&& toks.map_values(|t: SpannedToken<'src>| t.triple()) == lex(src.spec_bytes())
    &&& forall|i: int| 0 <= i < toks.len() ==> token_text_matches(src.spec_bytes(), #[trigger] toks[i])
}

/// The scanner errors of the lines, in order.
pub open spec fn line_errors<'src>(lines: Seq<LineV<'src>>) -> Seq<SyntaxErrV<'src>>
    decreases lines.len(),
{
    if lines.len() == 0 {
        Seq::empty()
    } else {
        let rest = line_errors(lines.drop_last());
        match lines.last().error {
            Some(e) => rest.push(SyntaxErrV::Scanner(e)),
            None => rest,
        }
    }
}

/// The result of syntax analysis of the source bytes `bytes`, lexed as `toks`:
/// the root components when no line has an error and the tree is well
/// nested, and otherwise the scanner errors followed by the tree errors.
pub open spec fn syntax_result<'src>(bytes: Seq<u8>, toks: Seq<SpannedToken<'src>>, strict: bool) -> Result<Seq<CompV<'src>>, Seq<SyntaxErrV<'src>>> {
    let lines = scan_lines_from(bytes, toks, 0, strict);
    let (roots, tree_errors) = build_tree_spec(lines);
    let errors = line_errors(lines) + tree_errors.map_values(|e: TreeErrV<'src>| SyntaxErrV::TreeBuilder(e));
    if errors.len() == 0 {
        Ok(roots)
    } else {
        Err(errors)
    }
}

pub open spec fn result_view<'src>(r: Result<Vec<RawComponent<'src>>, Vec<SyntaxError<'src>>>) -> Result<Seq<CompV<'src>>, Seq<SyntaxErrV<'src>>> {
    match r {
        Ok(roots) => Ok(comps_view(roots@)),
        Err(errs) => Err(errs@.map_values(|e: SyntaxError<'src>| e.view())),
    }
}

proof fn lemma_literal_lengths()
    ensures
        ",".spec_bytes().len() == 1,
        ":".spec_bytes().len() == 1,
        ";".spec_bytes().len() == 1,
        "=".spec_bytes().len() == 1,
        "\"".spec_bytes().len() == 1,
        "".spec_bytes().len() == 0,
{
    reveal_strlit(",");
    reveal_strlit(":");
    reveal_strlit(";");
    reveal_strlit("=");
    reveal_strlit("\"");
    reveal_strlit("");
    reveal_with_fuel(vstd::utf8::encode_utf8, 2);
}

/// The tokens of a source are nonempty, increasing and pairwise disjoint
/// spans inside it, and the text of each word, symbol or run of non-ASCII
/// text is the source at its span.
pub proof fn lemma_tokens_of_wf<'src>(src: &'src str, toks: Seq<SpannedToken<'src>>)
    requires
        tokens_of(src, toks),
    ensures
        tokens_wf(src.spec_bytes().len() as int, toks),
        forall|i: int| 0 <= i < toks.len() ==> token_text_matches(src.spec_bytes(), #[trigger] toks[i]),
{
    let bytes = src.spec_bytes();
    let f = |t: SpannedToken<'src>| t.triple();
    lemma_lex_spans(bytes, 0);
    lemma_literal_lengths();
    assert(toks.map_values(f).len() == toks.len());
    assert forall|i: int| 0 <= i < toks.len() implies #[trigger] toks[i].1.start < toks[i].1.end <= bytes.len() by {
        assert(toks.map_values(f)[i] == lex(bytes)[i]);
    }
    assert forall|i: int, j: int| 0 <= i < j < toks.len() implies #[trigger] toks[i].1.end <= #[trigger] toks[j].1.start by {
        assert(toks.map_values(f)[i] == lex(bytes)[i]);
        assert(toks.map_values(f)[j] == lex(bytes)[j]);
    }
    assert forall|i: int| 0 <= i < toks.len() implies token_text(#[trigger] toks[i].0).spec_bytes().len() <= toks[i].1.end - toks[i].1.start by {
        assert(toks.map_values(f)[i] == lex(bytes)[i]);
        assert(token_text_matches(bytes, toks[i]));
    }
}

pub open spec fn errors_view<'src>(es: Seq<SyntaxError<'src>>) -> Seq<SyntaxErrV<'src>> {
    es.map_values(|e: SyntaxError<'src>| e.view())
}

pub open spec fn tree_errors_as_syntax<'src>(es: Seq<TreeErrV<'src>>) -> Seq<SyntaxErrV<'src>> {
    es.map_values(|e: TreeErrV<'src>| SyntaxErrV::TreeBuilder(e))
}

/// The scanner errors of the lines, in order.
fn collect_line_errors<'src>(lines: &Vec<ContentLine<'src>>) -> (errors: Vec<SyntaxError<'src>>)
    ensures
        errors_view(errors@) == line_errors(lines_view(lines@)),
{
    let ghost lv = lines_view(lines@);
    let mut errors: Vec<SyntaxError<'src>> = Vec::new();
    let mut i: usize = 0;
    while i < lines.len()
        invariant
            0 <= i <= lines@.len(),
            lv == lines_view(lines@),
            errors_view(errors@) == line_errors(lv.take(i as int)),
        decreases lines@.len() - i,
    {
        let ghost old_errors = errors@;
        assert(lv.take(i + 1).drop_last() =~= lv.take(i as int));
        match &lines[i].error {
            Some(error) => {
                errors.push(SyntaxError::Scanner(error.clone()));
                assert(errors_view(errors@) =~= errors_view(old_errors).push(errors@.last().view()));
            },
            None => {},
        }
        i = i + 1;
    }
    assert(lv.take(i as int) =~= lv);
    errors
}

/// Append the tree builder errors, in order.
fn append_tree_errors<'src>(errors: &mut Vec<SyntaxError<'src>>, tree_errors: &Vec<TreeBuildError<'src>>)
    ensures
        errors_view(final(errors)@) == errors_view(old(errors)@) + tree_errors_as_syntax(errs_view(tree_errors@)),
{
    let ghost base = errors_view(errors@);
    let ghost te = errs_view(tree_errors@);
    let mut j: usize = 0;
    while j < tree_errors.len()
        invariant
            0 <= j <= tree_errors@.len(),
            te == errs_view(tree_errors@),
            errors_view(errors@) == base + tree_errors_as_syntax(te.take(j as int)),
        decreases tree_errors@.len() - j,
    {
        let ghost old_errors = errors@;
        errors.push(SyntaxError::TreeBuilder(tree_errors[j].clone()));
        assert(errors_view(errors@) =~= errors_view(old_errors).push(errors@.last().view()));
        assert(tree_errors_as_syntax(te.take(j + 1)) =~= tree_errors_as_syntax(te.take(j as int)).push(SyntaxErrV::TreeBuilder(te[j as int])));
        j = j + 1;
    }
    assert(te.take(j as int) =~= te);
}

/// Parse raw iCalendar components from source text with custom options.
///
/// Tokenizes the text, scans it into content lines and builds the component
/// tree. Returns the root components, or every error of the scanner (in
/// line order) followed by every error of the tree builder.
pub fn syntax_analysis_with_options<'src>(src: &'src str, options: ParseOptions) -> (r: Result<Vec<RawComponent<'src>>, Vec<SyntaxError<'src>>>)
    ensures
        exists|toks: Seq<SpannedToken<'src>>| tokens_of(src, toks) && #[trigger] result_view(r) == syntax_result(src.spec_bytes(), toks, options.strict_line_endings),
{
    let tokens = tokenize(src);
    let ghost toks = tokens@;
    assert(tokens_of(src, toks));
    proof {
        lemma_tokens_of_wf(src, toks);
    }
    let scan_result = scan_content_lines(src, tokens, options);
    let mut errors = collect_line_errors(&scan_result.lines);
    let tree_result = build_tree(&scan_result.lines);
    append_tree_errors(&mut errors, &tree_result.errors);
    let ghost spec = syntax_result(src.spec_bytes(), toks, options.strict_line_endings);
    assert(errors_view(errors@).len() == errors@.len());
    if errors.len() > 0 {
        assert(result_view(Err(errors)) == spec);
        return Err(errors);
    }
    assert(result_view(Ok(tree_result.roots)) == spec);
    Ok(tree_result.roots)
}

/// Parse raw iCalendar components from source text, with default options.
pub fn syntax_analysis<'src>(src: &'src str) -> (r: Result<Vec<RawComponent<'src>>, Vec<SyntaxError<'src>>>)
    ensures
        exists|toks: Seq<SpannedToken<'src>>| tokens_of(src, toks) && #[trigger] result_view(r) == syntax_result(src.spec_bytes(), toks, false),
{
    syntax_analysis_with_options(src, ParseOptions::default())
}

} // verus!
