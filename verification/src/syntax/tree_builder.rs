//! Tree builder for constructing the component hierarchy from content lines.
//!
//! The tree builder uses a stack of open components:
//! 1. On `BEGIN:X`, push a new component onto the stack
//! 2. On a property, add it to the current component (top of stack)
//! 3. On `END:X`, pop from the stack and add it to the parent component
//!    (or to the roots, when the stack is left empty)

use vstd::prelude::*;
use vstd::string::StringSliceAdditionalSpecFns;
use vstd::string::StringExecFns;

use crate::keyword::{KW_BEGIN, KW_END};
use crate::string_storage::{
    Span, SpannedSegments, StringStorage, eq_ignore_ascii_case, segments_bytes, segments_chars,
};
use crate::syntax::scanner::{
    ContentLine, LineV, ParamV, ParamValueV, ScannedParameter, lines_view,
};

verus! {

/// A parsed iCalendar component (e.g., VCALENDAR, VEVENT, VTODO)
#[derive(Debug)]
pub struct RawComponent<'src> {
    /// Component name (e.g., "VCALENDAR", "VEVENT", "VTIMEZONE", "VALARM")
    pub name: SpannedSegments<'src>,
    /// Properties in original order
    pub properties: Vec<RawProperty<'src>>,
    /// Nested child components
    pub children: Vec<RawComponent<'src>>,
    /// Span of the entire component (from BEGIN to END)
    pub span: Span,
}

/// A parsed iCalendar property (name, optional parameters, and value)
#[derive(Debug)]
pub struct RawProperty<'src> {
    /// Property name (case-insensitive, original casing preserved)
    pub name: SpannedSegments<'src>,
    /// Property parameters (allow duplicates & multi-values)
    pub parameters: Vec<RawParameterRef<'src>>,
    /// Raw property value (may need further parsing by typed analysis)
    pub value: SpannedSegments<'src>,
}

/// A parsed iCalendar parameter (e.g., `TZID=America/New_York`)
#[derive(Debug)]
pub struct RawParameter<S: StringStorage> {
    /// Parameter name (e.g., "TZID", "VALUE", "CN", "ROLE", "PARTSTAT")
    pub name: S,
    /// Parameter values split by commas
    pub values: Vec<RawParameterValue<S>>,
    /// Span of the entire parameter (from name to last value)
    pub span: S::Span,
}

/// Type alias for borrowed raw parameter
pub type RawParameterRef<'src> = RawParameter<SpannedSegments<'src>>;

/// Type alias for owned raw parameter
pub type RawParameterOwned = RawParameter<String>;

/// A single parameter value with optional quoting
#[derive(Debug)]
pub struct RawParameterValue<S: StringStorage> {
    /// The parameter value
    pub value: S,
    /// Whether the value was quoted in the source
    pub quoted: bool,
}

/// Type alias for borrowed raw parameter value
pub type RawParameterValueRef<'src> = RawParameterValue<SpannedSegments<'src>>;

/// Type alias for owned raw parameter value
pub type RawParameterValueOwned = RawParameterValue<String>;

/// Errors that can occur during tree building.
#[derive(Debug)]
pub enum TreeBuildError<'src> {
    /// Unmatched END (no corresponding BEGIN)
    UnmatchedEnd {
        /// Component name that was being closed
        name: SpannedSegments<'src>,
        /// Span of the END line
        span: Span,
    },
    /// Unmatched BEGIN (component not closed)
    UnmatchedBegin {
        /// Component name that was not closed
        name: SpannedSegments<'src>,
        /// Span of the BEGIN line
        span: Span,
    },
    /// Mismatched BEGIN/END names
    MismatchedNesting {
        /// Expected component name
        expected: SpannedSegments<'src>,
        /// Actual component name found
        found: SpannedSegments<'src>,
        /// Span of the END line
        span: Span,
    },
    /// BEGIN or END line with parameters (not allowed per RFC 5545)
    BeginEndWithParameters {
        /// The component name
        name: SpannedSegments<'src>,
        /// Span of the line
        span: Span,
    },
}

/// Result of building a tree.
#[derive(Debug)]
pub struct TreeBuilderResult<'src> {
    /// The root components (typically one VCALENDAR)
    pub roots: Vec<RawComponent<'src>>,
    /// Errors encountered during tree building
    pub errors: Vec<TreeBuildError<'src>>,
}

// ---------------------------------------------------------------------------
// Abstract views
// ---------------------------------------------------------------------------

/// A parameter, as its name, values (each with its quoting) and span.
#[verifier::ext_equal]
pub struct RawParamV<'src> {
    pub name: Seq<(&'src str, Span)>,
    pub values: Seq<(Seq<(&'src str, Span)>, bool)>,
    pub span: Span,
}

/// A property, as its name, parameters and value.
#[verifier::ext_equal]
pub struct PropV<'src> {
    pub name: Seq<(&'src str, Span)>,
    pub params: Seq<RawParamV<'src>>,
    pub value: Seq<(&'src str, Span)>,
}

/// A component, as its name, properties, child components and span.
#[verifier::ext_equal]
pub struct CompV<'src> {
    pub name: Seq<(&'src str, Span)>,
    pub props: Seq<PropV<'src>>,
    pub children: Seq<CompV<'src>>,
    pub span: Span,
}

/// A tree building error.
#[verifier::ext_equal]
pub enum TreeErrV<'src> {
    UnmatchedEnd { name: Seq<(&'src str, Span)>, span: Span },
    UnmatchedBegin { name: Seq<(&'src str, Span)>, span: Span },
    MismatchedNesting {
        expected: Seq<(&'src str, Span)>,
        found: Seq<(&'src str, Span)>,
        span: Span,
    },
    BeginEndWithParameters { name: Seq<(&'src str, Span)>, span: Span },
}

impl<'src> RawParameterValue<SpannedSegments<'src>> {
    pub open spec fn view(&self) -> (Seq<(&'src str, Span)>, bool) {
        (self.value.segs(), self.quoted)
    }
}

impl<'src> RawParameter<SpannedSegments<'src>> {
    pub open spec fn view(&self) -> RawParamV<'src> {
        RawParamV {
            name: self.name.segs(),
            values: self.values@.map_values(|v: RawParameterValueRef<'src>| v.view()),
            span: self.span,
        }
    }
}

impl<'src> RawProperty<'src> {
    pub open spec fn view(&self) -> PropV<'src> {
        PropV {
            name: self.name.segs(),
            params: self.parameters@.map_values(|p: RawParameterRef<'src>| p.view()),
            value: self.value.segs(),
        }
    }
}

impl<'src> RawComponent<'src> {
    pub open spec fn view(&self) -> CompV<'src>
        decreases self,
    {
        CompV {
            name: self.name.segs(),
            props: self.properties@.map_values(|p: RawProperty<'src>| p.view()),
            children: comps_view(self.children@),
            span: self.span,
        }
    }
}

/// The views of a sequence of components.
pub open spec fn comps_view<'src>(cs: Seq<RawComponent<'src>>) -> Seq<CompV<'src>>
    decreases cs,
{
    if cs.len() == 0 {
        Seq::empty()
    } else {
        comps_view(cs.drop_last()).push(cs.last().view())
    }
}


impl<'src> TreeBuildError<'src> {
    pub open spec fn view(&self) -> TreeErrV<'src> {
        match self {
            TreeBuildError::UnmatchedEnd { name, span } => TreeErrV::UnmatchedEnd {
                name: name.segs(),
                span: *span,
            },
            TreeBuildError::UnmatchedBegin { name, span } => TreeErrV::UnmatchedBegin {
                name: name.segs(),
                span: *span,
            },
            TreeBuildError::MismatchedNesting { expected, found, span } => TreeErrV::MismatchedNesting {
                expected: expected.segs(),
                found: found.segs(),
                span: *span,
            },
            TreeBuildError::BeginEndWithParameters { name, span } => TreeErrV::BeginEndWithParameters {
                name: name.segs(),
                span: *span,
            },
        }
    }
}

impl<'src> Clone for TreeBuildError<'src> {
    fn clone(&self) -> (r: Self)
        ensures
            r.view() == self.view(),
    {
        match self {
            TreeBuildError::UnmatchedEnd { name, span } => TreeBuildError::UnmatchedEnd {
                name: name.clone(),
                span: *span,
            },
            TreeBuildError::UnmatchedBegin { name, span } => TreeBuildError::UnmatchedBegin {
                name: name.clone(),
                span: *span,
            },
            TreeBuildError::MismatchedNesting { expected, found, span } => TreeBuildError::MismatchedNesting {
                expected: expected.clone(),
                found: found.clone(),
                span: *span,
            },
            TreeBuildError::BeginEndWithParameters { name, span } => TreeBuildError::BeginEndWithParameters {
                name: name.clone(),
                span: *span,
            },
        }
    }
}

/// The message of a tree building error.
pub open spec fn tree_error_message<'src>(e: TreeErrV<'src>) -> Seq<char> {
    match e {
        TreeErrV::UnmatchedEnd { name, .. } => "unmatched END:"@ + segments_chars(name)
            + " (no corresponding BEGIN)"@,
        TreeErrV::UnmatchedBegin { name, .. } => "unmatched BEGIN:"@ + segments_chars(name)
            + " (component not closed)"@,
        TreeErrV::MismatchedNesting { expected, found, .. } => "mismatched nesting: expected END:"@
            + segments_chars(expected) + ", found END:"@ + segments_chars(found),
        TreeErrV::BeginEndWithParameters { name, .. } => segments_chars(name)
            + " line with parameters (not allowed per RFC 5545)"@,
    }
}

impl<'src> TreeBuildError<'src> {
    /// The message of this error.
    pub fn to_string(&self) -> (r: String)
        ensures
            r@ == tree_error_message(self.view()),
    {
        match self {
            TreeBuildError::UnmatchedEnd { name, .. } => {
                let mut r = "unmatched END:".to_owned();
                r.append(name.to_owned().as_str());
                r.append(" (no corresponding BEGIN)");
                r
            },
            TreeBuildError::UnmatchedBegin { name, .. } => {
                let mut r = "unmatched BEGIN:".to_owned();
                r.append(name.to_owned().as_str());
                r.append(" (component not closed)");
                r
            },
            TreeBuildError::MismatchedNesting { expected, found, .. } => {
                let mut r = "mismatched nesting: expected END:".to_owned();
                r.append(expected.to_owned().as_str());
                r.append(", found END:");
                r.append(found.to_owned().as_str());
                r
            },
            TreeBuildError::BeginEndWithParameters { name, .. } => {
                let mut r = name.to_owned();
                r.append(" line with parameters (not allowed per RFC 5545)");
                r
            },
        }
    }
}

pub open spec fn errs_view<'src>(es: Seq<TreeBuildError<'src>>) -> Seq<TreeErrV<'src>> {
    es.map_values(|e: TreeBuildError<'src>| e.view())
}

// ---------------------------------------------------------------------------
// The tree as a fold over the content lines
// ---------------------------------------------------------------------------

/// A `BEGIN` line name (ASCII case ignored).
pub open spec fn is_begin_name(name: Seq<(&str, Span)>) -> bool {
    eq_ignore_ascii_case(segments_bytes(name), KW_BEGIN.spec_bytes())
}

/// An `END` line name (ASCII case ignored).
pub open spec fn is_end_name(name: Seq<(&str, Span)>) -> bool {
    eq_ignore_ascii_case(segments_bytes(name), KW_END.spec_bytes())
}

/// The raw parameter made from a scanned parameter.
pub open spec fn raw_param_of<'src>(p: ParamV<'src>) -> RawParamV<'src> {
    RawParamV {
        name: p.name,
        values: p.values.map_values(|v: ParamValueV<'src>| (v.value, v.quoted)),
        span: p.span,
    }
}

/// The property made from a content line.
pub open spec fn prop_of<'src>(line: LineV<'src>) -> PropV<'src> {
    PropV {
        name: line.name,
        params: line.params.map_values(|p: ParamV<'src>| raw_param_of(p)),
        value: line.value,
    }
}

/// The state of the builder: open components, finished roots and errors.
#[verifier::ext_equal]
pub struct TreeStateV<'src> {
    pub stack: Seq<CompV<'src>>,
    pub roots: Seq<CompV<'src>>,
    pub errors: Seq<TreeErrV<'src>>,
}

/// A component with one more property.
pub open spec fn with_prop<'src>(c: CompV<'src>, p: PropV<'src>) -> CompV<'src> {
    CompV { name: c.name, props: c.props.push(p), children: c.children, span: c.span }
}

/// A component with one more child.
pub open spec fn with_child<'src>(c: CompV<'src>, child: CompV<'src>) -> CompV<'src> {
    CompV { name: c.name, props: c.props, children: c.children.push(child), span: c.span }
}

/// The errors, with a `BeginEndWithParameters` error if the line has parameters.
pub open spec fn errors_for_params<'src>(errors: Seq<TreeErrV<'src>>, line: LineV<'src>) -> Seq<TreeErrV<'src>> {
    if line.params.len() > 0 {
        errors.push(TreeErrV::BeginEndWithParameters { name: line.name, span: line.span })
    } else {
        errors
    }
}

/// One content line applied to the builder state.
pub open spec fn tree_step<'src>(st: TreeStateV<'src>, line: LineV<'src>) -> TreeStateV<'src> {
    if line.error is Some {
        st
    } else if is_begin_name(line.name) {
        TreeStateV {
            stack: st.stack.push(
                CompV { name: line.value, props: Seq::empty(), children: Seq::empty(), span: line.span },
            ),
            roots: st.roots,
            errors: errors_for_params(st.errors, line),
        }
    } else if is_end_name(line.name) {
        let errors = errors_for_params(st.errors, line);
        if st.stack.len() > 0 {
            let comp = st.stack.last();
            let rest = st.stack.drop_last();
            let errors2 = if !eq_ignore_ascii_case(segments_bytes(comp.name), segments_bytes(line.value)) {
                errors.push(
                    TreeErrV::MismatchedNesting { expected: comp.name, found: line.value, span: line.span },
                )
            } else {
                errors
            };
            if rest.len() > 0 {
                TreeStateV {
                    stack: rest.drop_last().push(with_child(rest.last(), comp)),
                    roots: st.roots,
                    errors: errors2,
                }
            } else {
                TreeStateV { stack: rest, roots: st.roots.push(comp), errors: errors2 }
            }
        } else {
            TreeStateV {
                stack: st.stack,
                roots: st.roots,
                errors: errors.push(TreeErrV::UnmatchedEnd { name: line.value, span: line.span }),
            }
        }
    } else if st.stack.len() > 0 {
        TreeStateV {
            stack: st.stack.drop_last().push(with_prop(st.stack.last(), prop_of(line))),
            roots: st.roots,
            errors: st.errors,
        }
    } else {
        st
    }
}

/// The builder state after all of `lines`.
pub open spec fn tree_fold<'src>(lines: Seq<LineV<'src>>) -> TreeStateV<'src>
    decreases lines.len(),
{
    if lines.len() == 0 {
        TreeStateV { stack: Seq::empty(), roots: Seq::empty(), errors: Seq::empty() }
    } else {
        tree_step(tree_fold(lines.drop_last()), lines.last())
    }
}

/// The errors for components left open at the end.
pub open spec fn unmatched_begins<'src>(stack: Seq<CompV<'src>>) -> Seq<TreeErrV<'src>> {
    stack.map_values(|c: CompV<'src>| TreeErrV::UnmatchedBegin { name: c.name, span: c.span })
}

/// The roots and errors built from `lines`.
pub open spec fn build_tree_spec<'src>(lines: Seq<LineV<'src>>) -> (Seq<CompV<'src>>, Seq<TreeErrV<'src>>) {
    let st = tree_fold(lines);
    (st.roots, st.errors + unmatched_begins(st.stack))
}

// ---------------------------------------------------------------------------
// The builder
// ---------------------------------------------------------------------------

proof fn lemma_comps_view_len<'src>(cs: Seq<RawComponent<'src>>)
    ensures
        comps_view(cs).len() == cs.len(),
        forall|i: int| 0 <= i < cs.len() ==> #[trigger] comps_view(cs)[i] == cs[i].view(),
    decreases cs.len(),
{
    if cs.len() > 0 {
        lemma_comps_view_len(cs.drop_last());
    }
}

proof fn lemma_comps_view_push<'src>(cs: Seq<RawComponent<'src>>, c: RawComponent<'src>)
    ensures
        comps_view(cs.push(c)) == comps_view(cs).push(c.view()),
{
    assert(cs.push(c).drop_last() =~= cs);
}

proof fn lemma_comps_view_drop_last<'src>(cs: Seq<RawComponent<'src>>)
    requires
        cs.len() > 0,
    ensures
        comps_view(cs.drop_last()) == comps_view(cs).drop_last(),
        comps_view(cs).last() == cs.last().view(),
{
    lemma_comps_view_len(cs);
    lemma_comps_view_len(cs.drop_last());
    assert(comps_view(cs.drop_last()) =~= comps_view(cs).drop_last());
}

/// Two raw parameters have the same name and values, in either storage.
pub open spec fn raw_param_agrees<A: StringStorage, B: StringStorage>(
    a: RawParameter<A>,
    b: RawParameter<B>,
) -> bool {
    &&& a.name.text() == b.name.text()
    &&& a.values@.len() == b.values@.len()
    &&& forall|i: int|
        0 <= i < a.values@.len() ==> #[trigger] a.values@[i].value.text() == b.values@[i].value.text()
            && a.values@[i].quoted == b.values@[i].quoted
}

impl<'src> RawParameterRef<'src> {
    /// Convert borrowed type to owned type
    pub fn to_owned(&self) -> (r: RawParameterOwned)
        ensures
            raw_param_agrees(r, *self),
            r.name@ == self.name@,
            r.values@.len() == self.values@.len(),
            forall|i: int|
                0 <= i < r.values@.len() ==> #[trigger] r.values@[i].value@ == self.values@[i].value@
                    && r.values@[i].quoted == self.values@[i].quoted,
    {
        let mut values: Vec<RawParameterValueOwned> = Vec::new();
        let mut i: usize = 0;
        while i < self.values.len()
            invariant
                0 <= i <= self.values@.len(),
                values@.len() == i,
                forall|j: int|
                    0 <= j < i ==> #[trigger] values@[j].value@ == self.values@[j].value@
                        && values@[j].quoted == self.values@[j].quoted,
            decreases self.values@.len() - i,
        {
            let v = self.values[i].to_owned();
            let ghost old = values@;
            values.push(v);
            assert(forall|j: int| 0 <= j < i ==> values@[j] == old[j]);
            assert forall|j: int| 0 <= j < i + 1 implies #[trigger] values@[j].value@ == self.values@[j].value@
                && values@[j].quoted == self.values@[j].quoted by {
                if j < i {
                    assert(values@[j] == old[j]);
                } else {
                    assert(values@[j] == v);
                }
            }
            i = i + 1;
        }
        RawParameter { name: self.name.to_owned(), values, span: () }
    }
}

impl<'src> RawParameterValueRef<'src> {
    /// Convert borrowed type to owned type
    pub fn to_owned(&self) -> (r: RawParameterValueOwned)
        ensures
            r.value@ == self.value@,
            r.quoted == self.quoted,
    {
        RawParameterValue { value: self.value.to_owned(), quoted: self.quoted }
    }
}

/// The raw parameter made from a scanned parameter.
fn raw_parameter<'src>(p: &ScannedParameter<'src>) -> (r: RawParameterRef<'src>)
    ensures
        r.view() == raw_param_of(p.view()),
{
    let mut values: Vec<RawParameterValueRef<'src>> = Vec::new();
    let mut i: usize = 0;
    while i < p.values.len()
        invariant
            0 <= i <= p.values@.len(),
            values@.len() == i,
            forall|j: int|
                0 <= j < i ==> #[trigger] values@[j].view() == (p.values@[j].value.segs(), p.values@[j].quoted),
        decreases p.values@.len() - i,
    {
        values.push(RawParameterValue { value: p.values[i].value.clone(), quoted: p.values[i].quoted });
        i = i + 1;
    }
    let r = RawParameter { name: p.name.clone(), values, span: p.span };
    assert(r.view() =~= raw_param_of(p.view()));
    r
}

/// The property made from a content line.
fn raw_property<'src>(line: &ContentLine<'src>) -> (r: RawProperty<'src>)
    ensures
        r.view() == prop_of(line.view()),
{
    let mut parameters: Vec<RawParameterRef<'src>> = Vec::new();
    let mut i: usize = 0;
    while i < line.parameters.len()
        invariant
            0 <= i <= line.parameters@.len(),
            parameters@.len() == i,
            forall|j: int|
                0 <= j < i ==> #[trigger] parameters@[j].view() == raw_param_of(line.parameters@[j].view()),
        decreases line.parameters@.len() - i,
    {
        parameters.push(raw_parameter(&line.parameters[i]));
        i = i + 1;
    }
    let r = RawProperty { name: line.name.clone(), parameters, value: line.value.clone() };
    assert(r.view() =~= prop_of(line.view()));
    r
}

/// Build a component tree from scanned content lines.
///
/// Lines with errors are skipped. A property outside of any component is
/// ignored. Components left open at the end are reported as unmatched.
pub fn build_tree<'src>(lines: &Vec<ContentLine<'src>>) -> (r: TreeBuilderResult<'src>)
    ensures
        (comps_view(r.roots@), errs_view(r.errors@)) == build_tree_spec(lines_view(lines@)),
{
    let mut stack: Vec<RawComponent<'src>> = Vec::new();
    let mut roots: Vec<RawComponent<'src>> = Vec::new();
    let mut errors: Vec<TreeBuildError<'src>> = Vec::new();
    let ghost lv = lines_view(lines@);
    let mut i: usize = 0;
    while i < lines.len()
        invariant
            0 <= i <= lines@.len(),
            lv == lines_view(lines@),
            comps_view(stack@) == tree_fold(lv.take(i as int)).stack,
            comps_view(roots@) == tree_fold(lv.take(i as int)).roots,
            errs_view(errors@) == tree_fold(lv.take(i as int)).errors,
        decreases lines@.len() - i,
    {
        let line = &lines[i];
        let ghost st = tree_fold(lv.take(i as int));
        let ghost l = line.view();
        proof {
            assert(lv.take(i + 1).drop_last() =~= lv.take(i as int));
            assert(lv.take(i + 1).last() == l);
            lemma_comps_view_len(stack@);
        }
        let ghost old_errors = errors@;
        if line.error.is_some() {
        } else if line.name.eq_str_ignore_ascii_case(KW_BEGIN) {
            if line.parameters.len() > 0 {
                errors.push(TreeBuildError::BeginEndWithParameters { name: line.name.clone(), span: line.span });
                assert(errs_view(errors@) =~= errs_view(old_errors).push(errors@.last().view()));
            }
            let comp = RawComponent {
                name: line.value.clone(),
                properties: Vec::new(),
                children: Vec::new(),
                span: line.span,
            };
            proof {
                lemma_comps_view_push(stack@, comp);
                assert(comp.view() =~= CompV { name: l.value, props: Seq::empty(), children: Seq::empty(), span: l.span });
            }
            stack.push(comp);
        } else if line.name.eq_str_ignore_ascii_case(KW_END) {
            if line.parameters.len() > 0 {
                errors.push(TreeBuildError::BeginEndWithParameters { name: line.name.clone(), span: line.span });
                assert(errs_view(errors@) =~= errs_view(old_errors).push(errors@.last().view()));
            }
            let ghost errors_after_params = errors@;
            if stack.len() > 0 {
                proof {
                    lemma_comps_view_drop_last(stack@);
                }
                let ghost stack_before = stack@;
                let comp = stack.pop().unwrap();
                if !comp.name.eq_segments_ignore_ascii_case(&line.value) {
                    errors.push(TreeBuildError::MismatchedNesting {
                        expected: comp.name.clone(),
                        found: line.value.clone(),
                        span: line.span,
                    });
                    assert(errs_view(errors@) =~= errs_view(errors_after_params).push(errors@.last().view()));
                }
                if stack.len() > 0 {
                    proof {
                        assert(stack@ == stack_before.drop_last());
                        lemma_comps_view_drop_last(stack@);
                    }
                    let mut parent = stack.pop().unwrap();
                    let ghost old_children = parent.children@;
                    proof {
                        lemma_comps_view_push(old_children, comp);
                    }
                    parent.children.push(comp);
                    proof {
                        lemma_comps_view_push(stack@, parent);
                    }
                    stack.push(parent);
                } else {
                    proof {
                        lemma_comps_view_push(roots@, comp);
                    }
                    roots.push(comp);
                }
            } else {
                errors.push(TreeBuildError::UnmatchedEnd { name: line.value.clone(), span: line.span });
                assert(errs_view(errors@) =~= errs_view(errors_after_params).push(errors@.last().view()));
            }
        } else if stack.len() > 0 {
            proof {
                lemma_comps_view_drop_last(stack@);
            }
            let prop = raw_property(line);
            let mut top = stack.pop().unwrap();
            let ghost old_props = top.properties@;
            top.properties.push(prop);
            assert(top.properties@.map_values(|p: RawProperty<'src>| p.view()) =~= old_props.map_values(|p: RawProperty<'src>| p.view()).push(prop.view()));
            proof {
                lemma_comps_view_push(stack@, top);
            }
            stack.push(top);
        }
        proof {
            let st2 = tree_fold(lv.take(i + 1));
            assert(comps_view(stack@) =~= st2.stack);
            assert(comps_view(roots@) =~= st2.roots);
            assert(errs_view(errors@) =~= st2.errors);
        }
        i = i + 1;
    }
    assert(lv.take(i as int) =~= lv);
    let ghost st = tree_fold(lv);
    proof {
        lemma_comps_view_len(stack@);
    }
    let mut j: usize = 0;
    let ghost base = errors@;
    while j < stack.len()
        invariant
            0 <= j <= stack@.len(),
            comps_view(stack@) == st.stack,
            comps_view(stack@).len() == stack@.len(),
            forall|k: int| 0 <= k < stack@.len() ==> #[trigger] comps_view(stack@)[k] == stack@[k].view(),
            errs_view(errors@) == errs_view(base) + unmatched_begins(st.stack).take(j as int),
        decreases stack@.len() - j,
    {
        let ghost old_errors = errors@;
        errors.push(TreeBuildError::UnmatchedBegin { name: stack[j].name.clone(), span: stack[j].span });
        assert(errs_view(errors@) =~= errs_view(old_errors).push(errors@.last().view()));
        assert(unmatched_begins(st.stack).take(j + 1) =~= unmatched_begins(st.stack).take(j as int).push(unmatched_begins(st.stack)[j as int]));
        j = j + 1;
    }
    assert(unmatched_begins(st.stack).take(j as int) =~= unmatched_begins(st.stack));
    TreeBuilderResult { roots, errors }
}

} // verus!
