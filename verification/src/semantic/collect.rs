//! Collecting the properties of a component: the first of each kind that
//! the component takes at most once, the duplicates of those, and the rest
//! in order.

use vstd::prelude::*;

use crate::property::ast::{TAG_ATTENDEE, TAG_CATEGORIES, TAG_FREE_BUSY, TAG_TZ_NAME, TAG_X_NAME};
use crate::parameter::FreeBusyType;
use crate::property::datetime::Period;
use crate::property::common::{Text, TextWithLanguage};
use crate::property::descriptive::Categories;
use crate::property::relationship::Attendee;
use crate::property::{Property, property_kind};
use crate::property::ast::{property_span, property_tag};
use crate::semantic::SemanticError;
use crate::string_storage::{Span, SpannedSegments};

verus! {

/// Whether the tag is one of the listed tags.
pub open spec fn is_listed(tags: Seq<usize>, t: nat) -> bool {
    exists|j: int| 0 <= j < tags.len() && tags[j] == t
}

/// Whether the listed tags are distinct and name kinds of a fixed
/// property type (neither experimental nor unrecognized).
pub open spec fn singles_wf(tags: Seq<usize>) -> bool {
    &&& forall|j: int| 0 <= j < tags.len() ==> #[trigger] tags[j] < TAG_X_NAME
    &&& forall|a: int, b: int| 0 <= a < b < tags.len() ==> tags[a] != tags[b]
}

/// The first property of the list with tag `t`.
pub open spec fn first_with_tag<'src>(ps: Seq<Property<'src>>, t: nat) -> Option<Property<'src>>
    decreases ps.len(),
{
    if ps.len() == 0 {
        None
    } else {
        match first_with_tag(ps.drop_last(), t) {
            Some(p) => Some(p),
            None => if property_tag(ps.last()) == t {
                Some(ps.last())
            } else {
                None
            },
        }
    }
}

/// The first property with a tag has that tag.
pub proof fn lemma_first_with_tag<'src>(ps: Seq<Property<'src>>, t: nat)
    ensures
        first_with_tag(ps, t) matches Some(p) ==> property_tag(p) == t,
    decreases ps.len(),
{
    if ps.len() > 0 {
        lemma_first_with_tag(ps.drop_last(), t);
    }
}

/// The properties of the list with tag `t`, in order.
pub open spec fn with_tag<'src>(ps: Seq<Property<'src>>, t: nat) -> Seq<Property<'src>>
    decreases ps.len(),
{
    if ps.len() == 0 {
        Seq::empty()
    } else {
        let prev = with_tag(ps.drop_last(), t);
        if property_tag(ps.last()) == t {
            prev.push(ps.last())
        } else {
            prev
        }
    }
}

/// The properties of the list without tag `t`, in order.
pub open spec fn without_tag<'src>(ps: Seq<Property<'src>>, t: nat) -> Seq<Property<'src>>
    decreases ps.len(),
{
    if ps.len() == 0 {
        Seq::empty()
    } else {
        let prev = without_tag(ps.drop_last(), t);
        if property_tag(ps.last()) == t {
            prev
        } else {
            prev.push(ps.last())
        }
    }
}

/// The properties of the list whose tags are not listed, in order.
pub open spec fn unlisted<'src>(ps: Seq<Property<'src>>, tags: Seq<usize>) -> Seq<Property<'src>>
    decreases ps.len(),
{
    if ps.len() == 0 {
        Seq::empty()
    } else {
        let prev = unlisted(ps.drop_last(), tags);
        if is_listed(tags, property_tag(ps.last())) {
            prev
        } else {
            prev.push(ps.last())
        }
    }
}

/// The span that a duplicate error gives: the one given, else the
/// duplicated property's own.
pub open spec fn dup_span<'src>(p: Property<'src>, span: Option<Span>) -> Span {
    match span {
        Some(s) => s,
        None => property_span(p),
    }
}

/// The errors for the properties of listed kinds that follow one of the
/// same kind, in order, each with the given span or its own.
pub open spec fn duplicate_errors<'src>(ps: Seq<Property<'src>>, tags: Seq<usize>, span: Option<Span>) -> Seq<
    SemanticError<'src>,
>
    decreases ps.len(),
{
    if ps.len() == 0 {
        Seq::empty()
    } else {
        let prev = duplicate_errors(ps.drop_last(), tags, span);
        let p = ps.last();
        if is_listed(tags, property_tag(p)) && first_with_tag(ps.drop_last(), property_tag(p)) is Some {
            prev.push(SemanticError::DuplicateProperty { property: property_kind(p), span: dup_span(p, span) })
        } else {
            prev
        }
    }
}

/// How many of the first `n` listed tags occur in the list.
pub open spec fn filled_count<'src>(ps: Seq<Property<'src>>, tags: Seq<usize>, n: nat) -> nat
    decreases n,
{
    if n == 0 {
        0
    } else {
        filled_count(ps, tags, (n - 1) as nat) + if first_with_tag(ps, tags[n - 1] as nat) is Some {
            1nat
        } else {
            0nat
        }
    }
}

/// Adding a property changes the count of occurring listed tags only at a
/// listed tag that did not occur before.
proof fn lemma_filled_count_push<'src>(ps: Seq<Property<'src>>, p: Property<'src>, tags: Seq<usize>, n: nat)
    requires
        singles_wf(tags),
        n <= tags.len(),
    ensures
        filled_count(ps.push(p), tags, n) == filled_count(ps, tags, n) + if exists|j: int|
            0 <= j < n && tags[j] == property_tag(p) && first_with_tag(ps, property_tag(p)) is None {
            1nat
        } else {
            0nat
        },
    decreases n,
{
    if n > 0 {
        lemma_filled_count_push(ps, p, tags, (n - 1) as nat);
        assert(ps.push(p).drop_last() =~= ps);
        assert(ps.push(p).last() == p);
        let t = tags[n - 1] as nat;
        if exists|j: int| 0 <= j < n - 1 && tags[j] == property_tag(p) && first_with_tag(ps, property_tag(p)) is None {
            let j = choose|j: int| 0 <= j < n - 1 && tags[j] == property_tag(p) && first_with_tag(ps, property_tag(p)) is None;
            assert(tags[j] != tags[n - 1]);
        }
    }
}

/// Collecting loses no property and counts none twice: each one fills the
/// slot of its kind, or is reported as a duplicate, or is kept among the
/// others.
pub proof fn lemma_collect_conserves<'src>(ps: Seq<Property<'src>>, tags: Seq<usize>, span: Option<Span>)
    requires
        singles_wf(tags),
    ensures
        ps.len() == filled_count(ps, tags, tags.len()) + duplicate_errors(ps, tags, span).len()
            + unlisted(ps, tags).len(),
    decreases ps.len(),
{
    if ps.len() == 0 {
        lemma_filled_count_empty(ps, tags, tags.len());
    } else {
        let pre = ps.drop_last();
        let p = ps.last();
        lemma_collect_conserves(pre, tags, span);
        assert(pre.push(p) =~= ps);
        lemma_filled_count_push(pre, p, tags, tags.len());
        let t = property_tag(p);
        if is_listed(tags, t) {
            let j = choose|j: int| 0 <= j < tags.len() && tags[j] == t;
            assert(tags[j] == t);
        }
    }
}

/// No listed tag occurs in an empty list.
proof fn lemma_filled_count_empty<'src>(ps: Seq<Property<'src>>, tags: Seq<usize>, n: nat)
    requires
        ps.len() == 0,
    ensures
        filled_count(ps, tags, n) == 0,
    decreases n,
{
    if n > 0 {
        lemma_filled_count_empty(ps, tags, (n - 1) as nat);
    }
}

/// Whether some property of the list has tag `t`.
pub open spec fn has_tag<'src>(ps: Seq<Property<'src>>, t: nat) -> bool {
    exists|i: int| 0 <= i < ps.len() && property_tag(#[trigger] ps[i]) == t
}

/// Whether a listed kind occurs twice in the list.
pub open spec fn repeats_listed<'src>(ps: Seq<Property<'src>>, tags: Seq<usize>) -> bool {
    exists|i: int, j: int|
        0 <= i < j < ps.len() && is_listed(tags, property_tag(#[trigger] ps[j])) && property_tag(#[trigger] ps[i])
            == property_tag(ps[j])
}

/// There is a first property with a tag exactly when some property has it.
pub proof fn lemma_first_with_tag_some<'src>(ps: Seq<Property<'src>>, t: nat)
    ensures
        (first_with_tag(ps, t) is Some) <==> has_tag(ps, t),
    decreases ps.len(),
{
    if ps.len() > 0 {
        let pre = ps.drop_last();
        lemma_first_with_tag_some(pre, t);
        if has_tag(pre, t) {
            let i = choose|i: int| 0 <= i < pre.len() && property_tag(#[trigger] pre[i]) == t;
            assert(ps[i] == pre[i]);
        }
        if has_tag(ps, t) && !has_tag(pre, t) {
            let i = choose|i: int| 0 <= i < ps.len() && property_tag(#[trigger] ps[i]) == t;
            if i < ps.len() - 1 {
                assert(pre[i] == ps[i]);
            }
        }
        if property_tag(ps.last()) == t {
            assert(property_tag(ps[ps.len() - 1]) == t);
        }
    }
}

/// Collecting reports no duplicate exactly when no listed kind occurs twice.
pub proof fn lemma_no_duplicates<'src>(ps: Seq<Property<'src>>, tags: Seq<usize>, span: Option<Span>)
    ensures
        (duplicate_errors(ps, tags, span).len() == 0) <==> !repeats_listed(ps, tags),
    decreases ps.len(),
{
    if ps.len() > 0 {
        let pre = ps.drop_last();
        let n = ps.len() - 1;
        let p = ps.last();
        lemma_no_duplicates(pre, tags, span);
        lemma_first_with_tag_some(pre, property_tag(p));
        if repeats_listed(pre, tags) {
            let (i, j) = choose|i: int, j: int|
                0 <= i < j < pre.len() && is_listed(tags, property_tag(#[trigger] pre[j])) && property_tag(
                    #[trigger] pre[i],
                ) == property_tag(pre[j]);
            assert(ps[i] == pre[i] && ps[j] == pre[j]);
        }
        if is_listed(tags, property_tag(p)) && has_tag(pre, property_tag(p)) {
            let i = choose|i: int| 0 <= i < pre.len() && property_tag(#[trigger] pre[i]) == property_tag(p);
            assert(ps[i] == pre[i] && ps[n] == p);
        }
        if repeats_listed(ps, tags) && !repeats_listed(pre, tags) {
            let (i, j) = choose|i: int, j: int|
                0 <= i < j < ps.len() && is_listed(tags, property_tag(#[trigger] ps[j])) && property_tag(
                    #[trigger] ps[i],
                ) == property_tag(ps[j]);
            if j < n {
                assert(pre[i] == ps[i] && pre[j] == ps[j]);
            } else {
                assert(pre[i] == ps[i]);
                assert(has_tag(pre, property_tag(p)));
            }
        }
    }
}

/// Pushing onto a list keeps what it held.
proof fn lemma_push_keeps<A>(s: Seq<A>, y: A, x: A)
    requires
        s.contains(x),
    ensures
        s.push(y).contains(x),
{
    let k = choose|k: int| 0 <= k < s.len() && s[k] == x;
    assert(s.push(y)[k] == x);
}

/// A property of a kind that is not listed is kept among the unlisted ones.
pub proof fn lemma_unlisted_keeps<'src>(ps: Seq<Property<'src>>, tags: Seq<usize>, i: int)
    requires
        0 <= i < ps.len(),
        !is_listed(tags, property_tag(ps[i])),
    ensures
        unlisted(ps, tags).contains(ps[i]),
    decreases ps.len(),
{
    let pre = ps.drop_last();
    if i == ps.len() - 1 {
        assert(unlisted(ps, tags) == unlisted(pre, tags).push(ps[i]));
        assert(unlisted(ps, tags)[unlisted(pre, tags).len() as int] == ps[i]);
    } else {
        assert(pre[i] == ps[i]);
        lemma_unlisted_keeps(pre, tags, i);
        if !is_listed(tags, property_tag(ps.last())) {
            lemma_push_keeps(unlisted(pre, tags), ps.last(), ps[i]);
        }
    }
}

/// A property of another kind than `t` is kept when those of kind `t` are taken out.
pub proof fn lemma_without_tag_keeps<'src>(ps: Seq<Property<'src>>, t: nat, p: Property<'src>)
    requires
        ps.contains(p),
        property_tag(p) != t,
    ensures
        without_tag(ps, t).contains(p),
    decreases ps.len(),
{
    let pre = ps.drop_last();
    if ps.last() == p {
        assert(without_tag(ps, t)[without_tag(pre, t).len() as int] == p);
    } else {
        let k = choose|k: int| 0 <= k < ps.len() && ps[k] == p;
        assert(k < ps.len() - 1);
        assert(pre[k] == p);
        lemma_without_tag_keeps(pre, t, p);
        if property_tag(ps.last()) != t {
            lemma_push_keeps(without_tag(pre, t), ps.last(), p);
        }
    }
}

/// The attendees of the list, in order.
pub open spec fn attendees_of<'src>(ps: Seq<Property<'src>>) -> Seq<Attendee<SpannedSegments<'src>>>
    decreases ps.len(),
{
    if ps.len() == 0 {
        Seq::empty()
    } else {
        let prev = attendees_of(ps.drop_last());
        match ps.last() {
            Property::Attendee(a) => prev.push(a),
            _ => prev,
        }
    }
}

/// Leaving out the properties of listed kinds keeps all attendees, when
/// `ATTENDEE` is not listed.
pub proof fn lemma_attendees_unlisted<'src>(ps: Seq<Property<'src>>, tags: Seq<usize>)
    requires
        !is_listed(tags, TAG_ATTENDEE as nat),
    ensures
        attendees_of(unlisted(ps, tags)) == attendees_of(ps),
    decreases ps.len(),
{
    if ps.len() > 0 {
        lemma_attendees_unlisted(ps.drop_last(), tags);
        let u = unlisted(ps.drop_last(), tags);
        if !is_listed(tags, property_tag(ps.last())) {
            assert(u.push(ps.last()).drop_last() =~= u);
        } else {
            assert(!(ps.last() is Attendee));
        }
    }
}

/// The properties of a component, collected.
pub struct Collected<'src> {
    /// The first property of each listed kind, in the order of the list
    pub slots: Vec<Option<Property<'src>>>,
    /// The properties of other kinds, in order
    pub others: Vec<Property<'src>>,
    /// The duplicated property errors
    pub errors: Vec<SemanticError<'src>>,
}

fn slot_index(tags: &Vec<usize>, t: usize) -> (r: Option<usize>)
    ensures
        r matches Some(j) ==> j < tags@.len() && tags@[j as int] == t,
        r is None ==> !is_listed(tags@, t as nat),
{
    let mut j: usize = 0;
    while j < tags.len()
        invariant
            0 <= j <= tags@.len(),
            forall|a: int| 0 <= a < j ==> tags@[a] != t,
        decreases tags@.len() - j,
    {
        if tags[j] == t {
            return Some(j);
        }
        j = j + 1;
    }
    None
}

/// Collect the properties of a component: the first of each listed kind
/// into its slot, an error for each later one of a listed kind, and the
/// properties of other kinds in order.
pub fn collect_properties<'src>(props: Vec<Property<'src>>, tags: &Vec<usize>, span: Option<Span>) -> (r: Collected<
    'src,
>)
    requires
        singles_wf(tags@),
    ensures
        r.slots@.len() == tags@.len(),
        forall|j: int| 0 <= j < tags@.len() ==> #[trigger] r.slots@[j] == first_with_tag(props@, tags@[j] as nat),
        r.others@ == unlisted(props@, tags@),
        r.errors@ == duplicate_errors(props@, tags@, span),
{
    let ghost ps = props@;
    let total = props.len();
    let mut slots: Vec<Option<Property<'src>>> = Vec::new();
    let mut k: usize = 0;
    while k < tags.len()
        invariant
            0 <= k <= tags@.len(),
            slots@.len() == k,
            forall|a: int| 0 <= a < k ==> #[trigger] slots@[a] is None,
        decreases tags@.len() - k,
    {
        slots.push(None);
        k = k + 1;
    }
    let mut others: Vec<Property<'src>> = Vec::new();
    let mut errors: Vec<SemanticError<'src>> = Vec::new();
    let mut rest = props;
    let mut i: usize = 0;
    assert(ps.take(0) =~= Seq::<Property<'src>>::empty());
    while rest.len() > 0
        invariant
            0 <= i <= ps.len(),
            ps.len() == total,
            singles_wf(tags@),
            rest@ == ps.skip(i as int),
            slots@.len() == tags@.len(),
            forall|j: int| 0 <= j < tags@.len() ==> #[trigger] slots@[j] == first_with_tag(ps.take(i as int), tags@[j] as nat),
            others@ == unlisted(ps.take(i as int), tags@),
            errors@ == duplicate_errors(ps.take(i as int), tags@, span),
        decreases rest@.len(),
    {
        let p = rest.remove(0);
        assert(p == ps[i as int]);
        let ghost pre = ps.take(i as int);
        assert(ps.take(i + 1).drop_last() =~= pre);
        assert(ps.take(i + 1).last() == p);
        let t = p.tag();
        match slot_index(tags, t) {
            Some(j) => {
                if slots[j].is_some() {
                    assert(first_with_tag(pre, t as nat) is Some);
                    let kind = p.kind();
                    let at = match span {
                        Some(s) => s,
                        None => p.span(),
                    };
                    errors.push(SemanticError::DuplicateProperty { property: kind, span: at });
                    assert(forall|a: int| 0 <= a < tags@.len() ==> #[trigger] first_with_tag(ps.take(i + 1), tags@[a] as nat)
                        == first_with_tag(pre, tags@[a] as nat));
                } else {
                    let ghost old_slots = slots@;
                    slots.remove(j);
                    slots.insert(j, Some(p));
                    assert(slots@ =~= old_slots.update(j as int, Some(p)));
                    assert forall|a: int| 0 <= a < tags@.len() implies #[trigger] slots@[a] == first_with_tag(
                        ps.take(i + 1),
                        tags@[a] as nat,
                    ) by {
                        if a != j {
                            assert(tags@[a] != tags@[j as int]);
                        }
                    }
                }
            },
            None => {
                others.push(p);
                assert(forall|a: int| 0 <= a < tags@.len() ==> tags@[a] != t);
                assert(forall|a: int| 0 <= a < tags@.len() ==> #[trigger] first_with_tag(ps.take(i + 1), tags@[a] as nat)
                    == first_with_tag(pre, tags@[a] as nat));
            },
        }
        assert(rest@ =~= ps.skip(i as int + 1));
        i = i + 1;
    }
    assert(ps.take(i as int) =~= ps);
    Collected { slots, others, errors }
}

/// Split off the properties with tag `t`, keeping the order of both parts.
pub fn split_tag<'src>(props: Vec<Property<'src>>, t: usize) -> (r: (Vec<Property<'src>>, Vec<Property<'src>>))
    ensures
        r.0@ == with_tag(props@, t as nat),
        r.1@ == without_tag(props@, t as nat),
{
    let ghost ps = props@;
    let total = props.len();
    let mut yes: Vec<Property<'src>> = Vec::new();
    let mut no: Vec<Property<'src>> = Vec::new();
    let mut rest = props;
    let mut i: usize = 0;
    assert(ps.take(0) =~= Seq::<Property<'src>>::empty());
    while rest.len() > 0
        invariant
            0 <= i <= ps.len(),
            ps.len() == total,
            rest@ == ps.skip(i as int),
            yes@ == with_tag(ps.take(i as int), t as nat),
            no@ == without_tag(ps.take(i as int), t as nat),
        decreases rest@.len(),
    {
        let p = rest.remove(0);
        assert(p == ps[i as int]);
        assert(ps.take(i + 1).drop_last() =~= ps.take(i as int));
        if p.tag() == t {
            yes.push(p);
        } else {
            no.push(p);
        }
        assert(rest@ =~= ps.skip(i as int + 1));
        i = i + 1;
    }
    assert(ps.take(i as int) =~= ps);
    (yes, no)
}

/// Take the attendees out of a list of properties, in order, with the other
/// properties in order.
pub fn take_attendees<'src>(props: Vec<Property<'src>>) -> (r: (
    Vec<Attendee<SpannedSegments<'src>>>,
    Vec<Property<'src>>,
))
    ensures
        r.0@ == attendees_of(props@),
        r.1@ == without_tag(props@, TAG_ATTENDEE as nat),
{
    let ghost ps = props@;
    let total = props.len();
    let mut yes: Vec<Attendee<SpannedSegments<'src>>> = Vec::new();
    let mut no: Vec<Property<'src>> = Vec::new();
    let mut rest = props;
    let mut i: usize = 0;
    assert(ps.take(0) =~= Seq::<Property<'src>>::empty());
    while rest.len() > 0
        invariant
            0 <= i <= ps.len(),
            ps.len() == total,
            rest@ == ps.skip(i as int),
            yes@ == attendees_of(ps.take(i as int)),
            no@ == without_tag(ps.take(i as int), TAG_ATTENDEE as nat),
        decreases rest@.len(),
    {
        let p = rest.remove(0);
        assert(p == ps[i as int]);
        assert(ps.take(i + 1).drop_last() =~= ps.take(i as int));
        match p {
            Property::Attendee(a) => yes.push(a),
            q => no.push(q),
        }
        assert(rest@ =~= ps.skip(i as int + 1));
        i = i + 1;
    }
    assert(ps.take(i as int) =~= ps);
    (yes, no)
}


/// The texts of the properties with tag `t`, in order.
pub open spec fn texts_of<'src>(ps: Seq<Property<'src>>, t: nat) -> Seq<Text<SpannedSegments<'src>>>
    decreases ps.len(),
{
    if ps.len() == 0 {
        Seq::empty()
    } else {
        let prev = texts_of(ps.drop_last(), t);
        if property_tag(ps.last()) == t {
            match ps.last() {
                Property::Comment(x) => prev.push(x),
                Property::Description(x) => prev.push(x),
                Property::Location(x) => prev.push(x),
                Property::Summary(x) => prev.push(x),
                Property::Contact(x) => prev.push(x),
                _ => prev,
            }
        } else {
            prev
        }
    }
}

/// Take the text properties with tag `t` out of a list, in order, with the
/// other properties in order.
pub fn take_texts<'src>(props: Vec<Property<'src>>, t: usize) -> (r: (
    Vec<Text<SpannedSegments<'src>>>,
    Vec<Property<'src>>,
))
    ensures
        r.0@ == texts_of(props@, t as nat),
        r.1@ == without_tag(props@, t as nat),
{
    let ghost ps = props@;
    let total = props.len();
    let mut yes: Vec<Text<SpannedSegments<'src>>> = Vec::new();
    let mut no: Vec<Property<'src>> = Vec::new();
    let mut rest = props;
    let mut i: usize = 0;
    assert(ps.take(0) =~= Seq::<Property<'src>>::empty());
    while rest.len() > 0
        invariant
            0 <= i <= ps.len(),
            ps.len() == total,
            rest@ == ps.skip(i as int),
            yes@ == texts_of(ps.take(i as int), t as nat),
            no@ == without_tag(ps.take(i as int), t as nat),
        decreases rest@.len(),
    {
        let p = rest.remove(0);
        assert(p == ps[i as int]);
        assert(ps.take(i + 1).drop_last() =~= ps.take(i as int));
        if p.tag() == t {
            match p {
                Property::Comment(x) => yes.push(x),
                Property::Description(x) => yes.push(x),
                Property::Location(x) => yes.push(x),
                Property::Summary(x) => yes.push(x),
                Property::Contact(x) => yes.push(x),
                _ => {},
            }
        } else {
            no.push(p);
        }
        assert(rest@ =~= ps.skip(i as int + 1));
        i = i + 1;
    }
    assert(ps.take(i as int) =~= ps);
    (yes, no)
}

/// The categories of the list, in order.
pub open spec fn categories_of<'src>(ps: Seq<Property<'src>>) -> Seq<Categories<SpannedSegments<'src>>>
    decreases ps.len(),
{
    if ps.len() == 0 {
        Seq::empty()
    } else {
        let prev = categories_of(ps.drop_last());
        match ps.last() {
            Property::Categories(a) => prev.push(a),
            _ => prev,
        }
    }
}

/// Take the categories out of a list of properties, in order, with the
/// other properties in order.
pub fn take_categories<'src>(props: Vec<Property<'src>>) -> (r: (
    Vec<Categories<SpannedSegments<'src>>>,
    Vec<Property<'src>>,
))
    ensures
        r.0@ == categories_of(props@),
        r.1@ == without_tag(props@, TAG_CATEGORIES as nat),
{
    let ghost ps = props@;
    let total = props.len();
    let mut yes: Vec<Categories<SpannedSegments<'src>>> = Vec::new();
    let mut no: Vec<Property<'src>> = Vec::new();
    let mut rest = props;
    let mut i: usize = 0;
    assert(ps.take(0) =~= Seq::<Property<'src>>::empty());
    while rest.len() > 0
        invariant
            0 <= i <= ps.len(),
            ps.len() == total,
            rest@ == ps.skip(i as int),
            yes@ == categories_of(ps.take(i as int)),
            no@ == without_tag(ps.take(i as int), TAG_CATEGORIES as nat),
        decreases rest@.len(),
    {
        let p = rest.remove(0);
        assert(p == ps[i as int]);
        assert(ps.take(i + 1).drop_last() =~= ps.take(i as int));
        match p {
            Property::Categories(a) => yes.push(a),
            q => no.push(q),
        }
        assert(rest@ =~= ps.skip(i as int + 1));
        i = i + 1;
    }
    assert(ps.take(i as int) =~= ps);
    (yes, no)
}

/// The time zone names of the list, in order.
pub open spec fn tz_names_of<'src>(ps: Seq<Property<'src>>) -> Seq<TextWithLanguage<SpannedSegments<'src>>>
    decreases ps.len(),
{
    if ps.len() == 0 {
        Seq::empty()
    } else {
        let prev = tz_names_of(ps.drop_last());
        match ps.last() {
            Property::TzName(a) => prev.push(a),
            _ => prev,
        }
    }
}

/// Take the time zone names out of a list of properties, in order, with the
/// other properties in order.
pub fn take_tz_names<'src>(props: Vec<Property<'src>>) -> (r: (
    Vec<TextWithLanguage<SpannedSegments<'src>>>,
    Vec<Property<'src>>,
))
    ensures
        r.0@ == tz_names_of(props@),
        r.1@ == without_tag(props@, TAG_TZ_NAME as nat),
{
    let ghost ps = props@;
    let total = props.len();
    let mut yes: Vec<TextWithLanguage<SpannedSegments<'src>>> = Vec::new();
    let mut no: Vec<Property<'src>> = Vec::new();
    let mut rest = props;
    let mut i: usize = 0;
    assert(ps.take(0) =~= Seq::<Property<'src>>::empty());
    while rest.len() > 0
        invariant
            0 <= i <= ps.len(),
            ps.len() == total,
            rest@ == ps.skip(i as int),
            yes@ == tz_names_of(ps.take(i as int)),
            no@ == without_tag(ps.take(i as int), TAG_TZ_NAME as nat),
        decreases rest@.len(),
    {
        let p = rest.remove(0);
        assert(p == ps[i as int]);
        assert(ps.take(i + 1).drop_last() =~= ps.take(i as int));
        match p {
            Property::TzName(a) => yes.push(a),
            q => no.push(q),
        }
        assert(rest@ =~= ps.skip(i as int + 1));
        i = i + 1;
    }
    assert(ps.take(i as int) =~= ps);
    (yes, no)
}


/// The list that a free/busy type files its periods under: busy (also for
/// experimental and unrecognized types), free, tentatively busy, or busy and
/// unavailable.
pub open spec fn fb_category<'src>(t: FreeBusyType<SpannedSegments<'src>>) -> nat {
    match t {
        FreeBusyType::Free => 1,
        FreeBusyType::BusyTentative => 2,
        FreeBusyType::BusyUnavailable => 3,
        _ => 0,
    }
}

/// The periods of the `FREEBUSY` properties of a list whose type files them
/// under `c`, in order.
pub open spec fn fb_periods<'src>(ps: Seq<Property<'src>>, c: nat) -> Seq<Period<SpannedSegments<'src>>>
    decreases ps.len(),
{
    if ps.len() == 0 {
        Seq::empty()
    } else {
        let prev = fb_periods(ps.drop_last(), c);
        match ps.last() {
            Property::FreeBusy(f) => if fb_category(f.fb_type) == c {
                prev + f.values@
            } else {
                prev
            },
            _ => prev,
        }
    }
}

/// The periods of the `FREEBUSY` properties of a component, filed by type.
pub struct FreeBusyLists<'src> {
    /// Busy periods (also those of experimental and unrecognized types)
    pub busy: Vec<Period<SpannedSegments<'src>>>,
    /// Free periods
    pub free: Vec<Period<SpannedSegments<'src>>>,
    /// Tentatively busy periods
    pub busy_tentative: Vec<Period<SpannedSegments<'src>>>,
    /// Busy and unavailable periods
    pub busy_unavailable: Vec<Period<SpannedSegments<'src>>>,
    /// The other properties, in order
    pub others: Vec<Property<'src>>,
}

/// Take the `FREEBUSY` properties out of a list, filing their periods by
/// type, with the other properties in order.
pub fn take_free_busy<'src>(props: Vec<Property<'src>>) -> (r: FreeBusyLists<'src>)
    ensures
        r.busy@ == fb_periods(props@, 0),
        r.free@ == fb_periods(props@, 1),
        r.busy_tentative@ == fb_periods(props@, 2),
        r.busy_unavailable@ == fb_periods(props@, 3),
        r.others@ == without_tag(props@, TAG_FREE_BUSY as nat),
{
    let ghost ps = props@;
    let total = props.len();
    let mut busy: Vec<Period<SpannedSegments<'src>>> = Vec::new();
    let mut free: Vec<Period<SpannedSegments<'src>>> = Vec::new();
    let mut busy_tentative: Vec<Period<SpannedSegments<'src>>> = Vec::new();
    let mut busy_unavailable: Vec<Period<SpannedSegments<'src>>> = Vec::new();
    let mut others: Vec<Property<'src>> = Vec::new();
    let mut rest = props;
    let mut i: usize = 0;
    assert(ps.take(0) =~= Seq::<Property<'src>>::empty());
    while rest.len() > 0
        invariant
            0 <= i <= ps.len(),
            ps.len() == total,
            rest@ == ps.skip(i as int),
            busy@ == fb_periods(ps.take(i as int), 0),
            free@ == fb_periods(ps.take(i as int), 1),
            busy_tentative@ == fb_periods(ps.take(i as int), 2),
            busy_unavailable@ == fb_periods(ps.take(i as int), 3),
            others@ == without_tag(ps.take(i as int), TAG_FREE_BUSY as nat),
        decreases rest@.len(),
    {
        let p = rest.remove(0);
        assert(p == ps[i as int]);
        assert(ps.take(i + 1).drop_last() =~= ps.take(i as int));
        match p {
            Property::FreeBusy(f) => {
                let ghost fv = f.values@;
                let mut values = f.values;
                match f.fb_type {
                    FreeBusyType::Free => free.append(&mut values),
                    FreeBusyType::BusyTentative => busy_tentative.append(&mut values),
                    FreeBusyType::BusyUnavailable => busy_unavailable.append(&mut values),
                    _ => busy.append(&mut values),
                }
            },
            q => others.push(q),
        }
        assert(rest@ =~= ps.skip(i as int + 1));
        i = i + 1;
    }
    assert(ps.take(i as int) =~= ps);
    FreeBusyLists { busy, free, busy_tentative, busy_unavailable, others }
}

} // verus!
