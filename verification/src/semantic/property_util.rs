//! Helpers for reading the parameters and values of typed properties.

use vstd::prelude::*;

use crate::parameter::{Parameter, ParameterKind, param_kind};
use crate::property::common::{Text, first_param, lemma_first_param_kind};
use crate::string_storage::SpannedSegments;
use crate::typed::ParsedProperty;
use crate::value::{Value, ValueText};

verus! {

/// Extract a parameter value by kind from a property: the first parameter
/// of that kind.
pub fn find_parameter<'a, 'src>(parameters: &'a [Parameter<SpannedSegments<'src>>], kind: ParameterKind) -> (r:
    Option<&'a Parameter<SpannedSegments<'src>>>)
    ensures
        match r {
            Some(p) => first_param(parameters@, kind) == Some(*p),
            None => first_param(parameters@, kind) is None,
        },
{
    let ghost ps = parameters@;
    let mut i: usize = 0;
    while i < parameters.len()
        invariant
            0 <= i <= ps.len(),
            ps == parameters@,
            first_param(ps.take(i as int), kind) is None,
        decreases ps.len() - i,
    {
        proof {
            assert(ps.take(i as int + 1).drop_last() =~= ps.take(i as int));
        }
        if parameters[i].kind() == kind {
            proof {
                lemma_first_param_prefix(ps, i as int + 1);
                assert(first_param(ps.take(i as int + 1), kind) == Some(ps[i as int]));
            }
            return Some(&parameters[i]);
        }
        i = i + 1;
    }
    assert(ps.take(i as int) =~= ps);
    None
}

/// The first parameter of a kind in a prefix is the first in the whole,
/// once the prefix has one.
proof fn lemma_first_param_prefix<'src>(ps: Seq<Parameter<SpannedSegments<'src>>>, n: int)
    requires
        0 <= n <= ps.len(),
    ensures
        forall|k: ParameterKind| #[trigger] first_param(ps.take(n), k) is Some ==> first_param(ps, k)
            == first_param(ps.take(n), k),
    decreases ps.len() - n,
{
    if n < ps.len() {
        lemma_first_param_prefix(ps, n + 1);
        assert(ps.take(n + 1).drop_last() =~= ps.take(n));
        assert forall|k: ParameterKind| #[trigger] first_param(ps.take(n), k) is Some implies first_param(
            ps,
            k,
        ) == first_param(ps.take(n), k) by {
            assert(first_param(ps.take(n + 1), k) == first_param(ps.take(n), k));
        }
    } else {
        assert(ps.take(n) =~= ps);
    }
}

/// The text of a parameter of kind `k`, as the first such parameter gives
/// it.
pub open spec fn first_text_of(ps: Seq<Parameter<SpannedSegments>>, k: ParameterKind) -> Option<Seq<char>> {
    match first_param(ps, k) {
        Some(Parameter::Language { value, .. }) => Some(value@),
        Some(Parameter::TimeZoneIdentifier { value, .. }) => Some(value@),
        _ => None,
    }
}

/// Get the language parameter from a property's parameters
pub fn get_language(parameters: &[Parameter<SpannedSegments<'_>>]) -> (r: Option<String>)
    ensures
        match r {
            Some(s) => first_text_of(parameters@, ParameterKind::Language) == Some(s@),
            None => first_text_of(parameters@, ParameterKind::Language) is None,
        },
{
    proof {
        lemma_first_param_kind(parameters@, ParameterKind::Language);
    }
    match find_parameter(parameters, ParameterKind::Language) {
        Some(Parameter::Language { value, .. }) => Some(value.to_owned()),
        _ => None,
    }
}

/// Get the timezone identifier from a property's parameters
pub fn get_tzid(parameters: &[Parameter<SpannedSegments<'_>>]) -> (r: Option<String>)
    ensures
        match r {
            Some(s) => first_text_of(parameters@, ParameterKind::TimeZoneIdentifier) == Some(s@),
            None => first_text_of(parameters@, ParameterKind::TimeZoneIdentifier) is None,
        },
{
    proof {
        lemma_first_param_kind(parameters@, ParameterKind::TimeZoneIdentifier);
    }
    match find_parameter(parameters, ParameterKind::TimeZoneIdentifier) {
        Some(Parameter::TimeZoneIdentifier { value, .. }) => Some(value.to_owned()),
        _ => None,
    }
}

/// A text made from a value of a multi-valued property.
pub open spec fn text_item_ok<'src>(
    t: Text<SpannedSegments<'src>>,
    v: ValueText<SpannedSegments<'src>>,
    language: Option<SpannedSegments<'src>>,
) -> bool {
    &&& t.content == v
    &&& match (t.language, language) {
        (Some(a), Some(b)) => a@ == b@,
        (None, None) => true,
        _ => false,
    }
    &&& t.altrep is None
    &&& t.x_parameters@.len() == 0
    &&& t.retained_parameters@.len() == 0
}

/// Parse multi-valued text properties (CATEGORIES, RESOURCES): one text per
/// value, each with the language of the first `LANGUAGE` parameter and no
/// alternate representation. A value of another type gives no texts.
pub fn parse_multi_text_property<'src>(prop: ParsedProperty<'src>) -> (r: Vec<Text<SpannedSegments<'src>>>)
    ensures
        match prop.value {
            Value::Text { values, .. } => r@.len() == values@.len() && forall|i: int|
                0 <= i < r@.len() ==> #[trigger] r@[i].content == values@[i] && match (
                    r@[i].language,
                    first_param(prop.parameters@, ParameterKind::Language),
                ) {
                    (Some(l), Some(Parameter::Language { value, .. })) => l@ == value@,
                    (None, None) => true,
                    (None, Some(p)) => !(p is Language),
                    _ => false,
                } && r@[i].altrep is None && r@[i].x_parameters@.len() == 0
                    && r@[i].retained_parameters@.len() == 0,
            _ => r@.len() == 0,
        },
{
    proof {
        lemma_first_param_kind(prop.parameters@, ParameterKind::Language);
    }
    let params = prop.parameters.as_slice();
    let language = match find_parameter(params, ParameterKind::Language) {
        Some(Parameter::Language { value, .. }) => Some(value.clone()),
        _ => None,
    };
    let mut out: Vec<Text<SpannedSegments<'src>>> = Vec::new();
    match prop.value {
        Value::Text { values, .. } => {
            let ghost vs = values@;
            let total = values.len();
            let mut rest = values;
            let mut i: usize = 0;
            while rest.len() > 0
                invariant
                    0 <= i <= vs.len(),
                    vs.len() == total,
                    rest@ == vs.skip(i as int),
                    out@.len() == i,
                    forall|j: int| 0 <= j < i ==> text_item_ok(#[trigger] out@[j], vs[j], language),
                decreases rest@.len(),
            {
                let content: ValueText<SpannedSegments<'src>> = rest.remove(0);
                assert(content == vs[i as int]);
                let ghost old_out = out@;
                let lang = match &language {
                    Some(l) => Some(l.clone()),
                    None => None,
                };
                out.push(
                    Text {
                        content,
                        language: lang,
                        altrep: None,
                        x_parameters: Vec::new(),
                        retained_parameters: Vec::new(),
                        span: prop.span,
                    },
                );
                assert(rest@ =~= vs.skip(i as int + 1));
                assert(forall|j: int| 0 <= j < i ==> out@[j] == old_out[j]);
                assert forall|j: int| 0 <= j < i + 1 implies text_item_ok(#[trigger] out@[j], vs[j], language) by {
                    if j < i {
                        assert(out@[j] == old_out[j]);
                    }
                }
                i = i + 1;
            }
            assert(i == vs.len());
        },
        _ => {},
    }
    out
}

} // verus!
