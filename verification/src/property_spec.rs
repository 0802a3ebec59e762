//! The value types of a few properties: their default type, the types they
//! allow and whether they hold a list of values.

use vstd::prelude::*;

use crate::keyword::{KW_CATEGORIES, KW_DTEND, KW_DTSTART, KW_DURATION, KW_RRULE};
use crate::property::PropertyValueKind;

verus! {

/// The value types of a property.
#[derive(Debug)]
pub struct PropertySpec {
    /// The property name
    pub name: &'static str,
    /// The value type when no `VALUE` parameter is given
    pub default_kind: PropertyValueKind,
    /// The value types the property allows
    pub allowed_kinds: Vec<PropertyValueKind>,
    /// Whether the property holds a list of values
    pub multiple_valued: bool,
}

/// Whether a name is non-empty and made of ASCII uppercase letters only.
pub open spec fn is_upper_ascii_name(name: Seq<char>) -> bool {
    name.len() > 0 && forall|i: int| 0 <= i < name.len() ==> 'A' <= #[trigger] name[i] <= 'Z'
}

/// Whether every spec is well formed: an uppercase ASCII name, and a
/// default type among the allowed ones; and no name occurs twice.
pub open spec fn specs_wf(specs: Seq<PropertySpec>) -> bool {
    &&& forall|i: int| 0 <= i < specs.len() ==> is_upper_ascii_name(#[trigger] specs[i].name@)
    &&& forall|i: int|
        0 <= i < specs.len() ==> #[trigger] specs[i].allowed_kinds@.contains(specs[i].default_kind)
    &&& forall|i: int, j: int| 0 <= i < j < specs.len() ==> specs[i].name@ != specs[j].name@
}

/// The value types of `DTSTART`, `DTEND`, `DURATION`, `RRULE` and
/// `CATEGORIES`. The names are distinct uppercase ASCII words, and each
/// default type is one of the allowed ones.
pub fn property_specs() -> (r: Vec<PropertySpec>)
    ensures
        r@.len() == 5,
        specs_wf(r@),
        r@[0].name == KW_DTSTART && r@[0].default_kind == PropertyValueKind::DateTime
            && r@[0].allowed_kinds@ == seq![PropertyValueKind::Date, PropertyValueKind::DateTime]
            && !r@[0].multiple_valued,
        r@[1].name == KW_DTEND && r@[1].default_kind == PropertyValueKind::DateTime
            && r@[1].allowed_kinds@ == seq![PropertyValueKind::Date, PropertyValueKind::DateTime]
            && !r@[1].multiple_valued,
        r@[2].name == KW_DURATION && r@[2].default_kind == PropertyValueKind::Duration
            && r@[2].allowed_kinds@ == seq![PropertyValueKind::Duration] && !r@[2].multiple_valued,
        r@[3].name == KW_RRULE && r@[3].default_kind == PropertyValueKind::RecurrenceRule
            && r@[3].allowed_kinds@ == seq![PropertyValueKind::RecurrenceRule] && !r@[3].multiple_valued,
        r@[4].name == KW_CATEGORIES && r@[4].default_kind == PropertyValueKind::Text
            && r@[4].allowed_kinds@ == seq![PropertyValueKind::Text] && r@[4].multiple_valued,
{
    proof {
        reveal_strlit("DTSTART");
        reveal_strlit("DTEND");
        reveal_strlit("DURATION");
        reveal_strlit("RRULE");
        reveal_strlit("CATEGORIES");
    }
    let mut specs: Vec<PropertySpec> = Vec::new();
    specs.push(
        PropertySpec {
            name: KW_DTSTART,
            default_kind: PropertyValueKind::DateTime,
            allowed_kinds: vec![PropertyValueKind::Date, PropertyValueKind::DateTime],
            multiple_valued: false,
        },
    );
    specs.push(
        PropertySpec {
            name: KW_DTEND,
            default_kind: PropertyValueKind::DateTime,
            allowed_kinds: vec![PropertyValueKind::Date, PropertyValueKind::DateTime],
            multiple_valued: false,
        },
    );
    specs.push(
        PropertySpec {
            name: KW_DURATION,
            default_kind: PropertyValueKind::Duration,
            allowed_kinds: vec![PropertyValueKind::Duration],
            multiple_valued: false,
        },
    );
    specs.push(
        PropertySpec {
            name: KW_RRULE,
            default_kind: PropertyValueKind::RecurrenceRule,
            allowed_kinds: vec![PropertyValueKind::RecurrenceRule],
            multiple_valued: false,
        },
    );
    specs.push(
        PropertySpec {
            name: KW_CATEGORIES,
            default_kind: PropertyValueKind::Text,
            allowed_kinds: vec![PropertyValueKind::Text],
            multiple_valued: true,
        },
    );
    proof {
        let s = specs@;
        assert(s[0].allowed_kinds@[1] == s[0].default_kind);
        assert(s[1].allowed_kinds@[1] == s[1].default_kind);
        assert(s[2].allowed_kinds@[0] == s[2].default_kind);
        assert(s[3].allowed_kinds@[0] == s[3].default_kind);
        assert(s[4].allowed_kinds@[0] == s[4].default_kind);
        assert(s[0].name@.len() == 7 && s[1].name@.len() == 5 && s[2].name@.len() == 8);
        assert(s[3].name@.len() == 5 && s[4].name@.len() == 10);
        assert(s[1].name@[1] != s[3].name@[1]);
    }
    specs
}

} // verus!
