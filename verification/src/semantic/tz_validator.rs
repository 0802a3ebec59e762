//! Time-zone validation after semantic analysis: each `TZID` that a
//! date-time names must be defined by a `VTIMEZONE` of the calendar.

use vstd::prelude::*;

use crate::property::Property;
use crate::property::datetime::{DateTime, DateTimeProperty};
use crate::property::recurrence::{ExDateValue, RDateValue};
use crate::semantic::{CalendarComponent, ICalendar, SemanticError, VEvent, VJournal, VTodo};
use crate::string_storage::{Span, SpannedSegments};

verus! {

/// Context for TZID validation containing available timezone definitions.
pub struct TzContext<'a> {
    /// TZIDs defined in VTIMEZONE components
    pub vtimezone_tzids: &'a Vec<String>,
}

/// The texts of a list of strings.
pub open spec fn tzid_texts(v: Seq<String>) -> Seq<Seq<char>> {
    v.map_values(|s: String| s@)
}

/// A time zone that a date-time names but no `VTIMEZONE` defines: its
/// `TZID` and the span of the property that names it.
pub type MissingZone = (Seq<char>, Span);

/// The errors for a list of missing time zones, one for one and in order.
pub open spec fn tz_errors_are(es: Seq<SemanticError<'static>>, ms: Seq<MissingZone>) -> bool {
    &&& es.len() == ms.len()
    &&& forall|i: int|
        0 <= i < es.len() ==> (#[trigger] es[i] matches SemanticError::TimezoneNotFound { tzid, span } && tzid@
            == ms[i].0 && span == ms[i].1)
}

/// The text of an optional value.
pub open spec fn opt_text<'src>(o: Option<SpannedSegments<'src>>) -> Option<Seq<char>> {
    match o {
        Some(s) => Some(s@),
        None => None,
    }
}

/// What a `TZID` misses: itself, when it is given and not defined.
pub open spec fn tz_missing(ids: Seq<Seq<char>>, tz: Option<Seq<char>>, span: Span) -> Seq<MissingZone> {
    match tz {
        Some(t) => if ids.contains(t) {
            seq![]
        } else {
            seq![(t, span)]
        },
        None => seq![],
    }
}

/// The missing time zone of a date-time property.
pub open spec fn dt_missing<'src>(ids: Seq<Seq<char>>, dt: DateTimeProperty<SpannedSegments<'src>>) -> Seq<
    MissingZone,
> {
    tz_missing(ids, opt_text(dt.tz_id), dt.span)
}

/// The missing time zone of an optional date-time property.
pub open spec fn opt_dt_missing<'src>(ids: Seq<Seq<char>>, dt: Option<DateTimeProperty<SpannedSegments<'src>>>) -> Seq<
    MissingZone,
> {
    match dt {
        Some(d) => dt_missing(ids, d),
        None => seq![],
    }
}

/// The missing time zones of recurrence dates sharing one `TZID`: one for
/// each date-time, none for dates and periods.
pub open spec fn r_date_values_missing<'src>(
    ids: Seq<Seq<char>>,
    tz: Option<Seq<char>>,
    span: Span,
    ds: Seq<RDateValue<SpannedSegments<'src>>>,
) -> Seq<MissingZone>
    decreases ds.len(),
{
    if ds.len() == 0 {
        seq![]
    } else {
        r_date_values_missing(ids, tz, span, ds.drop_last()) + if ds.last() is DateTime {
            tz_missing(ids, tz, span)
        } else {
            seq![]
        }
    }
}

/// The missing time zones of exception dates sharing one `TZID`: one for
/// each date-time, none for dates.
pub open spec fn ex_date_values_missing(
    ids: Seq<Seq<char>>,
    tz: Option<Seq<char>>,
    span: Span,
    ds: Seq<ExDateValue>,
) -> Seq<MissingZone>
    decreases ds.len(),
{
    if ds.len() == 0 {
        seq![]
    } else {
        ex_date_values_missing(ids, tz, span, ds.drop_last()) + if ds.last() is DateTime {
            tz_missing(ids, tz, span)
        } else {
            seq![]
        }
    }
}

/// The missing time zones of the `RDATE` properties of a list, in order.
pub open spec fn r_dates_missing<'src>(ids: Seq<Seq<char>>, ps: Seq<Property<'src>>) -> Seq<MissingZone>
    decreases ps.len(),
{
    if ps.len() == 0 {
        seq![]
    } else {
        r_dates_missing(ids, ps.drop_last()) + match ps.last() {
            Property::RDate(r) => r_date_values_missing(ids, opt_text(r.tz_id), r.span, r.dates@),
            _ => seq![],
        }
    }
}

/// The missing time zones of the `EXDATE` properties of a list, in order.
pub open spec fn ex_dates_missing<'src>(ids: Seq<Seq<char>>, ps: Seq<Property<'src>>) -> Seq<MissingZone>
    decreases ps.len(),
{
    if ps.len() == 0 {
        seq![]
    } else {
        ex_dates_missing(ids, ps.drop_last()) + match ps.last() {
            Property::ExDate(x) => ex_date_values_missing(ids, opt_text(x.tz_id), x.span, x.dates@),
            _ => seq![],
        }
    }
}

/// The missing time zones of an event: its start, its end, then its
/// recurrence and exception dates.
pub open spec fn event_missing<'src>(ids: Seq<Seq<char>>, e: VEvent<'src>) -> Seq<MissingZone> {
    dt_missing(ids, e.dt_start) + opt_dt_missing(ids, e.dt_end) + r_dates_missing(ids, e.rdates@) + ex_dates_missing(
        ids,
        e.ex_dates@,
    )
}

/// The missing time zones of a to-do: its start, its due date, then its
/// recurrence and exception dates.
pub open spec fn todo_missing<'src>(ids: Seq<Seq<char>>, t: VTodo<'src>) -> Seq<MissingZone> {
    opt_dt_missing(ids, t.dt_start) + opt_dt_missing(ids, t.due) + r_dates_missing(ids, t.rdates@) + ex_dates_missing(
        ids,
        t.ex_dates@,
    )
}

/// The missing time zones of a journal entry: its start, then its
/// recurrence and exception dates.
pub open spec fn journal_missing<'src>(ids: Seq<Seq<char>>, j: VJournal<'src>) -> Seq<MissingZone> {
    dt_missing(ids, j.dt_start) + r_dates_missing(ids, j.rdate@) + ex_dates_missing(ids, j.ex_date@)
}

/// The missing time zones of a component; time zones, free/busy times,
/// alarms and other components name none.
pub open spec fn component_missing<'src>(ids: Seq<Seq<char>>, c: CalendarComponent<'src>) -> Seq<MissingZone> {
    match c {
        CalendarComponent::Event(e) => event_missing(ids, e),
        CalendarComponent::Todo(t) => todo_missing(ids, t),
        CalendarComponent::VJournal(j) => journal_missing(ids, j),
        _ => seq![],
    }
}

/// The missing time zones of a list of components, in order.
pub open spec fn components_missing<'src>(ids: Seq<Seq<char>>, cs: Seq<CalendarComponent<'src>>) -> Seq<MissingZone>
    decreases cs.len(),
{
    if cs.len() == 0 {
        seq![]
    } else {
        components_missing(ids, cs.drop_last()) + component_missing(ids, cs.last())
    }
}

/// The `TZID`s that the `VTIMEZONE` components of a list define, in order.
pub open spec fn defined_tzids<'src>(cs: Seq<CalendarComponent<'src>>) -> Seq<Seq<char>>
    decreases cs.len(),
{
    if cs.len() == 0 {
        seq![]
    } else {
        defined_tzids(cs.drop_last()) + match cs.last() {
            CalendarComponent::VTimeZone(v) => seq![v.tz_id.content.value@],
            _ => seq![],
        }
    }
}

/// Whether a `TZID` is one of the defined ones.
fn tz_is_defined(ids: &Vec<String>, t: &String) -> (r: bool)
    ensures
        r == tzid_texts(ids@).contains(t@),
{
    let mut i: usize = 0;
    while i < ids.len()
        invariant
            0 <= i <= ids@.len(),
            forall|j: int| 0 <= j < i ==> #[trigger] ids@[j]@ != t@,
        decreases ids@.len() - i,
    {
        if ids[i] == *t {
            assert(tzid_texts(ids@)[i as int] == t@);
            return true;
        }
        i = i + 1;
    }
    assert forall|j: int| 0 <= j < tzid_texts(ids@).len() implies tzid_texts(ids@)[j] != t@ by {
        assert(tzid_texts(ids@)[j] == ids@[j]@);
    }
    false
}

impl<'a> TzContext<'a> {
    /// The texts of the defined `TZID`s.
    pub open spec fn ids(&self) -> Seq<Seq<char>> {
        tzid_texts(self.vtimezone_tzids@)
    }

    /// Validate a single `DateTimeProperty`: `Ok` when it names no time
    /// zone or one that a `VTIMEZONE` defines, else the error for it. The
    /// property is left unchanged.
    pub fn validate_dt<'src>(&self, dt: &mut DateTimeProperty<SpannedSegments<'src>>) -> (r: Result<
        (),
        SemanticError<'static>,
    >)
        ensures
            *final(dt) == *old(dt),
            r is Ok <==> dt_missing(self.ids(), *old(dt)).len() == 0,
            r matches Err(e) ==> tz_errors_are(seq![e], dt_missing(self.ids(), *old(dt))),
    {
        check_dt(self, dt)
    }

    /// Validate a `DateTime` value with an optional `TZID`, the one of the
    /// property that holds it: `Ok` when there is no `TZID` or a defined
    /// one, else the error for it. The value is left unchanged.
    pub fn validate_value_dt(&self, dt: &mut DateTime, tz_id: Option<&str>, span: Span) -> (r: Result<
        (),
        SemanticError<'static>,
    >)
        ensures
            *final(dt) == *old(dt),
            r is Ok <==> tz_missing(self.ids(), str_text(tz_id), span).len() == 0,
            r matches Err(e) ==> tz_errors_are(seq![e], tz_missing(self.ids(), str_text(tz_id), span)),
    {
        match tz_id {
            None => Ok(()),
            Some(t) => {
                let s = t.to_owned();
                if tz_is_defined(self.vtimezone_tzids, &s) {
                    Ok(())
                } else {
                    Err(SemanticError::TimezoneNotFound { tzid: s, span })
                }
            },
        }
    }

    /// Validate the `RDATE` properties of a list: an error for each
    /// date-time of a property whose `TZID` no `VTIMEZONE` defines, in order.
    pub fn validate_rdates<'src>(&self, rdates: &Vec<Property<'src>>) -> (errors: Vec<SemanticError<'static>>)
        ensures
            tz_errors_are(errors@, r_dates_missing(self.ids(), rdates@)),
    {
        let ghost ps = rdates@;
        let mut errors: Vec<SemanticError<'static>> = Vec::new();
        let mut i: usize = 0;
        while i < rdates.len()
            invariant
                0 <= i <= ps.len(),
                ps == rdates@,
                tz_errors_are(errors@, r_dates_missing(self.ids(), ps.take(i as int))),
            decreases ps.len() - i,
        {
            assert(ps.take(i + 1).drop_last() =~= ps.take(i as int));
            match &rdates[i] {
                Property::RDate(r) => {
                    let tz = opt_owned(&r.tz_id);
                    let ghost tzt = opt_text(r.tz_id);
                    let ghost before = r_dates_missing(self.ids(), ps.take(i as int));
                    let mut j: usize = 0;
                    assert(r.dates@.take(0) =~= Seq::<RDateValue<SpannedSegments<'src>>>::empty());
                    assert(before + seq![] =~= before);
                    while j < r.dates.len()
                        invariant
                            0 <= j <= r.dates@.len(),
                            opt_string_text(tz) == tzt,
                            tz_errors_are(
                                errors@,
                                before + r_date_values_missing(self.ids(), tzt, r.span, r.dates@.take(j as int)),
                            ),
                        decreases r.dates@.len() - j,
                    {
                        let ghost prev = errors@;
                        let ghost vm = r_date_values_missing(self.ids(), tzt, r.span, r.dates@.take(j as int));
                        assert(r.dates@.take(j + 1).drop_last() =~= r.dates@.take(j as int));
                        match &r.dates[j] {
                            RDateValue::DateTime(dt) => {
                                let mut d = *dt;
                                let tz_str: Option<&str> = match &tz {
                                    Some(s) => Some(s.as_str()),
                                    None => None,
                                };
                                let res = self.validate_value_dt(&mut d, tz_str, r.span);
                                assert(str_text(tz_str) == tzt);
                                match res {
                                    Err(e) => {
                                        errors.push(e);
                                        proof {
                                            lemma_tz_errors_concat(prev, seq![e], before + vm, tz_missing(self.ids(), tzt, r.span));
                                            assert(prev + seq![e] =~= errors@);
                                        }
                                    },
                                    Ok(()) => {
                                        assert(tz_missing(self.ids(), tzt, r.span) =~= seq![]);
                                    },
                                }
                            },
                            _ => {},
                        }
                        assert(before + r_date_values_missing(self.ids(), tzt, r.span, r.dates@.take(j + 1)) =~= (before + vm) + (
                            if r.dates@[j as int] is DateTime {
                                tz_missing(self.ids(), tzt, r.span)
                            } else {
                                seq![]
                            }));
                        j = j + 1;
                    }
                    assert(r.dates@.take(r.dates@.len() as int) =~= r.dates@);
                },
                _ => {
                    assert(r_dates_missing(self.ids(), ps.take(i + 1)) =~= r_dates_missing(self.ids(), ps.take(i as int)));
                },
            }
            i = i + 1;
        }
        assert(ps.take(ps.len() as int) =~= ps);
        errors
    }

    /// Validate the `EXDATE` properties of a list: an error for each
    /// date-time of a property whose `TZID` no `VTIMEZONE` defines, in order.
    pub fn validate_exdates<'src>(&self, exdates: &Vec<Property<'src>>) -> (errors: Vec<SemanticError<'static>>)
        ensures
            tz_errors_are(errors@, ex_dates_missing(self.ids(), exdates@)),
    {
        let ghost ps = exdates@;
        let mut errors: Vec<SemanticError<'static>> = Vec::new();
        let mut i: usize = 0;
        while i < exdates.len()
            invariant
                0 <= i <= ps.len(),
                ps == exdates@,
                tz_errors_are(errors@, ex_dates_missing(self.ids(), ps.take(i as int))),
            decreases ps.len() - i,
        {
            assert(ps.take(i + 1).drop_last() =~= ps.take(i as int));
            match &exdates[i] {
                Property::ExDate(r) => {
                    let tz = opt_owned(&r.tz_id);
                    let ghost tzt = opt_text(r.tz_id);
                    let ghost before = ex_dates_missing(self.ids(), ps.take(i as int));
                    let mut j: usize = 0;
                    assert(r.dates@.take(0) =~= Seq::<ExDateValue>::empty());
                    assert(before + seq![] =~= before);
                    while j < r.dates.len()
                        invariant
                            0 <= j <= r.dates@.len(),
                            opt_string_text(tz) == tzt,
                            tz_errors_are(
                                errors@,
                                before + ex_date_values_missing(self.ids(), tzt, r.span, r.dates@.take(j as int)),
                            ),
                        decreases r.dates@.len() - j,
                    {
                        let ghost prev = errors@;
                        let ghost vm = ex_date_values_missing(self.ids(), tzt, r.span, r.dates@.take(j as int));
                        assert(r.dates@.take(j + 1).drop_last() =~= r.dates@.take(j as int));
                        match &r.dates[j] {
                            ExDateValue::DateTime(dt) => {
                                let mut d = *dt;
                                let tz_str: Option<&str> = match &tz {
                                    Some(s) => Some(s.as_str()),
                                    None => None,
                                };
                                let res = self.validate_value_dt(&mut d, tz_str, r.span);
                                assert(str_text(tz_str) == tzt);
                                match res {
                                    Err(e) => {
                                        errors.push(e);
                                        proof {
                                            lemma_tz_errors_concat(prev, seq![e], before + vm, tz_missing(self.ids(), tzt, r.span));
                                            assert(prev + seq![e] =~= errors@);
                                        }
                                    },
                                    Ok(()) => {
                                        assert(tz_missing(self.ids(), tzt, r.span) =~= seq![]);
                                    },
                                }
                            },
                            _ => {},
                        }
                        assert(before + ex_date_values_missing(self.ids(), tzt, r.span, r.dates@.take(j + 1)) =~= (before + vm) + (
                            if r.dates@[j as int] is DateTime {
                                tz_missing(self.ids(), tzt, r.span)
                            } else {
                                seq![]
                            }));
                        j = j + 1;
                    }
                    assert(r.dates@.take(r.dates@.len() as int) =~= r.dates@);
                },
                _ => {
                    assert(ex_dates_missing(self.ids(), ps.take(i + 1)) =~= ex_dates_missing(self.ids(), ps.take(i as int)));
                },
            }
            i = i + 1;
        }
        assert(ps.take(ps.len() as int) =~= ps);
        errors
    }
}

/// Components that can validate their own TZIDs.
pub trait ValidateTzids {
    /// Validate the `TZID` parameters of the component's date-times.
    fn validate_tzids(&mut self, ctx: &TzContext<'_>) -> Result<(), Vec<SemanticError<'static>>>;
}

/// The error of one date-time property, if any.
fn check_dt<'src>(ctx: &TzContext<'_>, dt: &DateTimeProperty<SpannedSegments<'src>>) -> (r: Result<(), SemanticError<'static>>)
    ensures
        r is Ok <==> dt_missing(ctx.ids(), *dt).len() == 0,
        r matches Err(e) ==> tz_errors_are(seq![e], dt_missing(ctx.ids(), *dt)),
{
    match &dt.tz_id {
        None => Ok(()),
        Some(t) => {
            let s = t.to_owned();
            if tz_is_defined(ctx.vtimezone_tzids, &s) {
                Ok(())
            } else {
                Err(SemanticError::TimezoneNotFound { tzid: s, span: dt.span })
            }
        },
    }
}

/// Put the error of a date-time property, if any, after the ones so far.
fn push_dt_error<'src>(
    errors: &mut Vec<SemanticError<'static>>,
    ctx: &TzContext<'_>,
    dt: &DateTimeProperty<SpannedSegments<'src>>,
    Ghost(ms): Ghost<Seq<MissingZone>>,
)
    requires
        tz_errors_are(old(errors)@, ms),
    ensures
        tz_errors_are(final(errors)@, ms + dt_missing(ctx.ids(), *dt)),
{
    let ghost prev = errors@;
    if let Err(e) = check_dt(ctx, dt) {
        errors.push(e);
        proof {
            lemma_tz_errors_concat(prev, seq![e], ms, dt_missing(ctx.ids(), *dt));
            assert(prev + seq![e] =~= errors@);
        }
    } else {
        assert(ms + dt_missing(ctx.ids(), *dt) =~= ms);
    }
}

/// Put the error of an optional date-time property, if any, after the
/// ones so far.
fn push_opt_dt_error<'src>(
    errors: &mut Vec<SemanticError<'static>>,
    ctx: &TzContext<'_>,
    dt: &Option<DateTimeProperty<SpannedSegments<'src>>>,
    Ghost(ms): Ghost<Seq<MissingZone>>,
)
    requires
        tz_errors_are(old(errors)@, ms),
    ensures
        tz_errors_are(final(errors)@, ms + opt_dt_missing(ctx.ids(), *dt)),
{
    let ghost prev = errors@;
    if let Some(d) = dt {
        push_dt_error(errors, ctx, d, Ghost(ms));
    } else {
        assert(ms + opt_dt_missing(ctx.ids(), *dt) =~= ms);
    }
}

/// Put more errors after the ones so far.
fn append_errors(
    errors: &mut Vec<SemanticError<'static>>,
    more: Vec<SemanticError<'static>>,
    Ghost(ms): Ghost<Seq<MissingZone>>,
    Ghost(ns): Ghost<Seq<MissingZone>>,
)
    requires
        tz_errors_are(old(errors)@, ms),
        tz_errors_are(more@, ns),
    ensures
        tz_errors_are(final(errors)@, ms + ns),
{
    let mut more = more;
    proof {
        lemma_tz_errors_concat(errors@, more@, ms, ns);
    }
    errors.append(&mut more);
}

/// The result of a validation: `Ok` when nothing is missing, else the errors.
fn finish(errors: Vec<SemanticError<'static>>, Ghost(ms): Ghost<Seq<MissingZone>>) -> (r: Result<
    (),
    Vec<SemanticError<'static>>,
>)
    requires
        tz_errors_are(errors@, ms),
    ensures
        r is Ok <==> ms.len() == 0,
        r matches Err(es) ==> tz_errors_are(es@, ms),
{
    if errors.len() == 0 {
        Ok(())
    } else {
        Err(errors)
    }
}

/// The errors of an event: its start, its end, then its recurrence and
/// exception dates.
fn event_errors<'src>(e: &VEvent<'src>, ctx: &TzContext<'_>) -> (r: Vec<SemanticError<'static>>)
    ensures
        tz_errors_are(r@, event_missing(ctx.ids(), *e)),
{
    let ghost ids = ctx.ids();
    let mut errors: Vec<SemanticError<'static>> = Vec::new();
    assert(tz_errors_are(errors@, seq![]));
    push_dt_error(&mut errors, ctx, &e.dt_start, Ghost(Seq::<MissingZone>::empty()));
    assert(seq![] + dt_missing(ids, e.dt_start) =~= dt_missing(ids, e.dt_start));
    push_opt_dt_error(&mut errors, ctx, &e.dt_end, Ghost(dt_missing(ids, e.dt_start)));
    let rs = ctx.validate_rdates(&e.rdates);
    append_errors(&mut errors, rs, Ghost(dt_missing(ids, e.dt_start) + opt_dt_missing(ids, e.dt_end)), Ghost(r_dates_missing(ids, e.rdates@)));
    let xs = ctx.validate_exdates(&e.ex_dates);
    append_errors(
        &mut errors,
        xs,
        Ghost(dt_missing(ids, e.dt_start) + opt_dt_missing(ids, e.dt_end) + r_dates_missing(ids, e.rdates@)),
        Ghost(ex_dates_missing(ids, e.ex_dates@)),
    );
    errors
}

/// The errors of a to-do: its start, its due date, then its recurrence and
/// exception dates.
fn todo_errors<'src>(t: &VTodo<'src>, ctx: &TzContext<'_>) -> (r: Vec<SemanticError<'static>>)
    ensures
        tz_errors_are(r@, todo_missing(ctx.ids(), *t)),
{
    let ghost ids = ctx.ids();
    let mut errors: Vec<SemanticError<'static>> = Vec::new();
    assert(tz_errors_are(errors@, seq![]));
    push_opt_dt_error(&mut errors, ctx, &t.dt_start, Ghost(Seq::<MissingZone>::empty()));
    assert(seq![] + opt_dt_missing(ids, t.dt_start) =~= opt_dt_missing(ids, t.dt_start));
    push_opt_dt_error(&mut errors, ctx, &t.due, Ghost(opt_dt_missing(ids, t.dt_start)));
    let rs = ctx.validate_rdates(&t.rdates);
    append_errors(&mut errors, rs, Ghost(opt_dt_missing(ids, t.dt_start) + opt_dt_missing(ids, t.due)), Ghost(r_dates_missing(ids, t.rdates@)));
    let xs = ctx.validate_exdates(&t.ex_dates);
    append_errors(
        &mut errors,
        xs,
        Ghost(opt_dt_missing(ids, t.dt_start) + opt_dt_missing(ids, t.due) + r_dates_missing(ids, t.rdates@)),
        Ghost(ex_dates_missing(ids, t.ex_dates@)),
    );
    errors
}

/// The errors of a journal entry: its start, then its recurrence and
/// exception dates.
fn journal_errors<'src>(j: &VJournal<'src>, ctx: &TzContext<'_>) -> (r: Vec<SemanticError<'static>>)
    ensures
        tz_errors_are(r@, journal_missing(ctx.ids(), *j)),
{
    let ghost ids = ctx.ids();
    let mut errors: Vec<SemanticError<'static>> = Vec::new();
    assert(tz_errors_are(errors@, seq![]));
    push_dt_error(&mut errors, ctx, &j.dt_start, Ghost(Seq::<MissingZone>::empty()));
    assert(seq![] + dt_missing(ids, j.dt_start) =~= dt_missing(ids, j.dt_start));
    let rs = ctx.validate_rdates(&j.rdate);
    append_errors(&mut errors, rs, Ghost(dt_missing(ids, j.dt_start)), Ghost(r_dates_missing(ids, j.rdate@)));
    let xs = ctx.validate_exdates(&j.ex_date);
    append_errors(
        &mut errors,
        xs,
        Ghost(dt_missing(ids, j.dt_start) + r_dates_missing(ids, j.rdate@)),
        Ghost(ex_dates_missing(ids, j.ex_date@)),
    );
    errors
}

/// The errors of one component, in order.
fn component_errors<'src>(c: &CalendarComponent<'src>, ctx: &TzContext<'_>) -> (r: Vec<SemanticError<'static>>)
    ensures
        tz_errors_are(r@, component_missing(ctx.ids(), *c)),
{
    match c {
        CalendarComponent::Event(e) => event_errors(e, ctx),
        CalendarComponent::Todo(t) => todo_errors(t, ctx),
        CalendarComponent::VJournal(j) => journal_errors(j, ctx),
        _ => Vec::new(),
    }
}

impl<'src> ValidateTzids for VEvent<'src> {
    /// Validate the start, the end, the recurrence dates and the exception
    /// dates, in this order; the event is left unchanged.
    fn validate_tzids(&mut self, ctx: &TzContext<'_>) -> (r: Result<(), Vec<SemanticError<'static>>>)
        ensures
            *final(self) == *old(self),
            r is Ok <==> event_missing(ctx.ids(), *old(self)).len() == 0,
            r matches Err(es) ==> tz_errors_are(es@, event_missing(ctx.ids(), *old(self))),
    {
        let errors = event_errors(self, ctx);
        finish(errors, Ghost(event_missing(ctx.ids(), *self)))
    }
}

impl<'src> ValidateTzids for VTodo<'src> {
    /// Validate the start, the due date, the recurrence dates and the
    /// exception dates, in this order; the to-do is left unchanged.
    fn validate_tzids(&mut self, ctx: &TzContext<'_>) -> (r: Result<(), Vec<SemanticError<'static>>>)
        ensures
            *final(self) == *old(self),
            r is Ok <==> todo_missing(ctx.ids(), *old(self)).len() == 0,
            r matches Err(es) ==> tz_errors_are(es@, todo_missing(ctx.ids(), *old(self))),
    {
        let errors = todo_errors(self, ctx);
        finish(errors, Ghost(todo_missing(ctx.ids(), *self)))
    }
}

impl<'src> ValidateTzids for VJournal<'src> {
    /// Validate the start, the recurrence dates and the exception dates, in
    /// this order; the journal entry is left unchanged.
    fn validate_tzids(&mut self, ctx: &TzContext<'_>) -> (r: Result<(), Vec<SemanticError<'static>>>)
        ensures
            *final(self) == *old(self),
            r is Ok <==> journal_missing(ctx.ids(), *old(self)).len() == 0,
            r matches Err(es) ==> tz_errors_are(es@, journal_missing(ctx.ids(), *old(self))),
    {
        let errors = journal_errors(self, ctx);
        finish(errors, Ghost(journal_missing(ctx.ids(), *self)))
    }
}

impl<'src> ValidateTzids for CalendarComponent<'src> {
    /// Validate an event, a to-do or a journal entry; the other components
    /// name no time zone. The component is left unchanged.
    fn validate_tzids(&mut self, ctx: &TzContext<'_>) -> (r: Result<(), Vec<SemanticError<'static>>>)
        ensures
            *final(self) == *old(self),
            r is Ok <==> component_missing(ctx.ids(), *old(self)).len() == 0,
            r matches Err(es) ==> tz_errors_are(es@, component_missing(ctx.ids(), *old(self))),
    {
        let errors = component_errors(self, ctx);
        finish(errors, Ghost(component_missing(ctx.ids(), *self)))
    }
}

/// Validate all `TZID` parameters of a calendar: each must name a time zone
/// that one of its `VTIMEZONE` components defines. `Ok` when all do, else
/// an error for each that does not, in the order of the components. The
/// calendar is left unchanged.
pub fn validate_tzids<'src>(cal: &mut ICalendar<'src>) -> (r: Result<(), Vec<SemanticError<'static>>>)
    ensures
        *final(cal) == *old(cal),
        r is Ok <==> components_missing(defined_tzids(old(cal).components@), old(cal).components@).len() == 0,
        r matches Err(es) ==> tz_errors_are(
            es@,
            components_missing(defined_tzids(old(cal).components@), old(cal).components@),
        ),
{
    let ghost cs = cal.components@;
    let mut vtimezone_tzids: Vec<String> = Vec::new();
    let mut i: usize = 0;
    while i < cal.components.len()
        invariant
            0 <= i <= cs.len(),
            cs == cal.components@,
            tzid_texts(vtimezone_tzids@) == defined_tzids(cs.take(i as int)),
        decreases cs.len() - i,
    {
        assert(cs.take(i + 1).drop_last() =~= cs.take(i as int));
        let ghost before = vtimezone_tzids@;
        if let CalendarComponent::VTimeZone(vtz) = &cal.components[i] {
            vtimezone_tzids.push(vtz.tz_id.content.value.to_owned());
            assert(tzid_texts(vtimezone_tzids@) =~= tzid_texts(before) + seq![vtz.tz_id.content.value@]);
        } else {
            assert(defined_tzids(cs.take(i + 1)) =~= defined_tzids(cs.take(i as int)));
        }
        i = i + 1;
    }
    assert(cs.take(cs.len() as int) =~= cs);
    let ctx = TzContext { vtimezone_tzids: &vtimezone_tzids };
    let ghost ids = ctx.ids();
    let mut errors: Vec<SemanticError<'static>> = Vec::new();
    let mut k: usize = 0;
    assert(tz_errors_are(errors@, seq![]));
    assert(components_missing(ids, cs.take(0)) =~= seq![]);
    while k < cal.components.len()
        invariant
            0 <= k <= cs.len(),
            cs == cal.components@,
            ids == defined_tzids(cs),
            ids == ctx.ids(),
            tz_errors_are(errors@, components_missing(ids, cs.take(k as int))),
        decreases cs.len() - k,
    {
        assert(cs.take(k + 1).drop_last() =~= cs.take(k as int));
        let es = component_errors(&cal.components[k], &ctx);
        append_errors(&mut errors, es, Ghost(components_missing(ids, cs.take(k as int))), Ghost(component_missing(ids, cs[k as int])));
        k = k + 1;
    }
    assert(cs.take(cs.len() as int) =~= cs);
    finish(errors, Ghost(components_missing(ids, cs)))
}

/// Errors for two lists of missing time zones make errors for both, in order.
proof fn lemma_tz_errors_concat(a: Seq<SemanticError<'static>>, b: Seq<SemanticError<'static>>, x: Seq<MissingZone>, y: Seq<MissingZone>)
    requires
        tz_errors_are(a, x),
        tz_errors_are(b, y),
    ensures
        tz_errors_are(a + b, x + y),
{
    assert forall|i: int| 0 <= i < (a + b).len() implies (#[trigger] (a + b)[i] matches SemanticError::TimezoneNotFound {
        tzid,
        span,
    } && tzid@ == (x + y)[i].0 && span == (x + y)[i].1) by {
        if i < a.len() {
            assert((a + b)[i] == a[i]);
        } else {
            assert((a + b)[i] == b[i - a.len()]);
        }
    }
}

/// The text of an optional string slice.
pub open spec fn str_text(o: Option<&str>) -> Option<Seq<char>> {
    match o {
        Some(s) => Some(s@),
        None => None,
    }
}

/// The text of an optional owned string.
pub open spec fn opt_string_text(o: Option<String>) -> Option<Seq<char>> {
    match o {
        Some(s) => Some(s@),
        None => None,
    }
}

fn opt_owned<'src>(o: &Option<SpannedSegments<'src>>) -> (r: Option<String>)
    ensures
        opt_string_text(r) == opt_text(*o),
{
    match o {
        Some(s) => Some(s.to_owned()),
        None => None,
    }
}


/// Whether a date-time property names the time zone `z` and stands at `span`.
pub open spec fn dt_names<'src>(dt: DateTimeProperty<SpannedSegments<'src>>, z: Seq<char>, span: Span) -> bool {
    opt_text(dt.tz_id) == Some(z) && dt.span == span
}

/// Whether an optional date-time property names the time zone `z` at `span`.
pub open spec fn opt_dt_names<'src>(
    dt: Option<DateTimeProperty<SpannedSegments<'src>>>,
    z: Seq<char>,
    span: Span,
) -> bool {
    dt matches Some(d) && dt_names(d, z, span)
}

/// Whether a property is an `RDATE` at `span` whose `TZID` is `z` and whose
/// value at `j` is a date-time.
pub open spec fn r_date_names_at<'src>(p: Property<'src>, j: int, z: Seq<char>, span: Span) -> bool {
    p matches Property::RDate(r) && opt_text(r.tz_id) == Some(z) && r.span == span && 0 <= j < r.dates@.len()
        && r.dates@[j] is DateTime
}

/// Whether a property is an `EXDATE` at `span` whose `TZID` is `z` and whose
/// value at `j` is a date-time.
pub open spec fn ex_date_names_at<'src>(p: Property<'src>, j: int, z: Seq<char>, span: Span) -> bool {
    p matches Property::ExDate(x) && opt_text(x.tz_id) == Some(z) && x.span == span && 0 <= j < x.dates@.len()
        && x.dates@[j] is DateTime
}

/// Whether some `RDATE` of a list has a date-time under the `TZID` `z` at `span`.
pub open spec fn r_dates_name<'src>(ps: Seq<Property<'src>>, z: Seq<char>, span: Span) -> bool {
    exists|i: int, j: int| 0 <= i < ps.len() && #[trigger] r_date_names_at(ps[i], j, z, span)
}

/// Whether some `EXDATE` of a list has a date-time under the `TZID` `z` at `span`.
pub open spec fn ex_dates_name<'src>(ps: Seq<Property<'src>>, z: Seq<char>, span: Span) -> bool {
    exists|i: int, j: int| 0 <= i < ps.len() && #[trigger] ex_date_names_at(ps[i], j, z, span)
}

/// Whether a component has a date-time property at `span` that names the
/// time zone `z`: the start, end, due date, recurrence or exception dates
/// of an event, a to-do or a journal entry.
pub open spec fn names_zone<'src>(c: CalendarComponent<'src>, z: Seq<char>, span: Span) -> bool {
    match c {
        CalendarComponent::Event(e) => dt_names(e.dt_start, z, span) || opt_dt_names(e.dt_end, z, span)
            || r_dates_name(e.rdates@, z, span) || ex_dates_name(e.ex_dates@, z, span),
        CalendarComponent::Todo(t) => opt_dt_names(t.dt_start, z, span) || opt_dt_names(t.due, z, span)
            || r_dates_name(t.rdates@, z, span) || ex_dates_name(t.ex_dates@, z, span),
        CalendarComponent::VJournal(j) => dt_names(j.dt_start, z, span) || r_dates_name(j.rdate@, z, span)
            || ex_dates_name(j.ex_date@, z, span),
        _ => false,
    }
}

/// What one part of a concatenation holds, the whole holds.
proof fn lemma_concat_contains<A>(a: Seq<A>, b: Seq<A>, x: A)
    requires
        a.contains(x) || b.contains(x),
    ensures
        (a + b).contains(x),
{
    if a.contains(x) {
        let i = choose|i: int| 0 <= i < a.len() && a[i] == x;
        assert((a + b)[i] == x);
    } else {
        let i = choose|i: int| 0 <= i < b.len() && b[i] == x;
        assert((a + b)[a.len() + i] == x);
    }
}

/// An undefined `TZID` of a date-time is missing.
proof fn lemma_tz_missing_undefined(ids: Seq<Seq<char>>, z: Seq<char>, span: Span)
    requires
        !ids.contains(z),
    ensures
        tz_missing(ids, Some(z), span).contains((z, span)),
{
    assert(tz_missing(ids, Some(z), span)[0] == (z, span));
}

proof fn lemma_r_date_values_report(
    ids: Seq<Seq<char>>,
    z: Seq<char>,
    span: Span,
    ds: Seq<RDateValue<SpannedSegments<'_>>>,
    j: int,
)
    requires
        !ids.contains(z),
        0 <= j < ds.len(),
        ds[j] is DateTime,
    ensures
        r_date_values_missing(ids, Some(z), span, ds).contains((z, span)),
    decreases ds.len(),
{
    lemma_tz_missing_undefined(ids, z, span);
    if j == ds.len() - 1 {
        lemma_concat_contains(r_date_values_missing(ids, Some(z), span, ds.drop_last()), tz_missing(ids, Some(z), span), (z, span));
    } else {
        lemma_r_date_values_report(ids, z, span, ds.drop_last(), j);
        lemma_concat_contains(
            r_date_values_missing(ids, Some(z), span, ds.drop_last()),
            if ds.last() is DateTime { tz_missing(ids, Some(z), span) } else { seq![] },
            (z, span),
        );
    }
}

proof fn lemma_ex_date_values_report(ids: Seq<Seq<char>>, z: Seq<char>, span: Span, ds: Seq<ExDateValue>, j: int)
    requires
        !ids.contains(z),
        0 <= j < ds.len(),
        ds[j] is DateTime,
    ensures
        ex_date_values_missing(ids, Some(z), span, ds).contains((z, span)),
    decreases ds.len(),
{
    lemma_tz_missing_undefined(ids, z, span);
    if j == ds.len() - 1 {
        lemma_concat_contains(ex_date_values_missing(ids, Some(z), span, ds.drop_last()), tz_missing(ids, Some(z), span), (z, span));
    } else {
        lemma_ex_date_values_report(ids, z, span, ds.drop_last(), j);
        lemma_concat_contains(
            ex_date_values_missing(ids, Some(z), span, ds.drop_last()),
            if ds.last() is DateTime { tz_missing(ids, Some(z), span) } else { seq![] },
            (z, span),
        );
    }
}

proof fn lemma_r_dates_report<'src>(ids: Seq<Seq<char>>, ps: Seq<Property<'src>>, i: int, j: int, z: Seq<char>, span: Span)
    requires
        !ids.contains(z),
        0 <= i < ps.len(),
        r_date_names_at(ps[i], j, z, span),
    ensures
        r_dates_missing(ids, ps).contains((z, span)),
    decreases ps.len(),
{
    let tail = match ps.last() {
        Property::RDate(r) => r_date_values_missing(ids, opt_text(r.tz_id), r.span, r.dates@),
        _ => seq![],
    };
    if i == ps.len() - 1 {
        if let Property::RDate(r) = ps.last() {
            lemma_r_date_values_report(ids, z, span, r.dates@, j);
        }
    } else {
        assert(ps.drop_last()[i] == ps[i]);
        lemma_r_dates_report(ids, ps.drop_last(), i, j, z, span);
    }
    lemma_concat_contains(r_dates_missing(ids, ps.drop_last()), tail, (z, span));
}

proof fn lemma_ex_dates_report<'src>(ids: Seq<Seq<char>>, ps: Seq<Property<'src>>, i: int, j: int, z: Seq<char>, span: Span)
    requires
        !ids.contains(z),
        0 <= i < ps.len(),
        ex_date_names_at(ps[i], j, z, span),
    ensures
        ex_dates_missing(ids, ps).contains((z, span)),
    decreases ps.len(),
{
    let tail = match ps.last() {
        Property::ExDate(x) => ex_date_values_missing(ids, opt_text(x.tz_id), x.span, x.dates@),
        _ => seq![],
    };
    if i == ps.len() - 1 {
        if let Property::ExDate(x) = ps.last() {
            lemma_ex_date_values_report(ids, z, span, x.dates@, j);
        }
    } else {
        assert(ps.drop_last()[i] == ps[i]);
        lemma_ex_dates_report(ids, ps.drop_last(), i, j, z, span);
    }
    lemma_concat_contains(ex_dates_missing(ids, ps.drop_last()), tail, (z, span));
}

proof fn lemma_r_dates_name_report<'src>(ids: Seq<Seq<char>>, ps: Seq<Property<'src>>, z: Seq<char>, span: Span)
    requires
        !ids.contains(z),
        r_dates_name(ps, z, span),
    ensures
        r_dates_missing(ids, ps).contains((z, span)),
{
    let (i, j) = choose|i: int, j: int| 0 <= i < ps.len() && #[trigger] r_date_names_at(ps[i], j, z, span);
    lemma_r_dates_report(ids, ps, i, j, z, span);
}

proof fn lemma_ex_dates_name_report<'src>(ids: Seq<Seq<char>>, ps: Seq<Property<'src>>, z: Seq<char>, span: Span)
    requires
        !ids.contains(z),
        ex_dates_name(ps, z, span),
    ensures
        ex_dates_missing(ids, ps).contains((z, span)),
{
    let (i, j) = choose|i: int, j: int| 0 <= i < ps.len() && #[trigger] ex_date_names_at(ps[i], j, z, span);
    lemma_ex_dates_report(ids, ps, i, j, z, span);
}

/// A component that names an undefined time zone misses it.
proof fn lemma_component_reports<'src>(ids: Seq<Seq<char>>, c: CalendarComponent<'src>, z: Seq<char>, span: Span)
    requires
        !ids.contains(z),
        names_zone(c, z, span),
    ensures
        component_missing(ids, c).contains((z, span)),
{
    lemma_tz_missing_undefined(ids, z, span);
    let m = (z, span);
    match c {
        CalendarComponent::Event(e) => {
            let a = dt_missing(ids, e.dt_start);
            let b = opt_dt_missing(ids, e.dt_end);
            let r = r_dates_missing(ids, e.rdates@);
            let x = ex_dates_missing(ids, e.ex_dates@);
            if r_dates_name(e.rdates@, z, span) {
                lemma_r_dates_name_report(ids, e.rdates@, z, span);
            }
            if ex_dates_name(e.ex_dates@, z, span) {
                lemma_ex_dates_name_report(ids, e.ex_dates@, z, span);
            }
            if a.contains(m) || b.contains(m) {
                lemma_concat_contains(a, b, m);
            }
            if (a + b).contains(m) || r.contains(m) {
                lemma_concat_contains(a + b, r, m);
            }
            lemma_concat_contains(a + b + r, x, m);
        },
        CalendarComponent::Todo(t) => {
            let a = opt_dt_missing(ids, t.dt_start);
            let b = opt_dt_missing(ids, t.due);
            let r = r_dates_missing(ids, t.rdates@);
            let x = ex_dates_missing(ids, t.ex_dates@);
            if r_dates_name(t.rdates@, z, span) {
                lemma_r_dates_name_report(ids, t.rdates@, z, span);
            }
            if ex_dates_name(t.ex_dates@, z, span) {
                lemma_ex_dates_name_report(ids, t.ex_dates@, z, span);
            }
            if a.contains(m) || b.contains(m) {
                lemma_concat_contains(a, b, m);
            }
            if (a + b).contains(m) || r.contains(m) {
                lemma_concat_contains(a + b, r, m);
            }
            lemma_concat_contains(a + b + r, x, m);
        },
        CalendarComponent::VJournal(j) => {
            let a = dt_missing(ids, j.dt_start);
            let r = r_dates_missing(ids, j.rdate@);
            let x = ex_dates_missing(ids, j.ex_date@);
            if r_dates_name(j.rdate@, z, span) {
                lemma_r_dates_name_report(ids, j.rdate@, z, span);
            }
            if ex_dates_name(j.ex_date@, z, span) {
                lemma_ex_dates_name_report(ids, j.ex_date@, z, span);
            }
            if a.contains(m) || r.contains(m) {
                lemma_concat_contains(a, r, m);
            }
            lemma_concat_contains(a + r, x, m);
        },
        _ => {},
    }
}

proof fn lemma_components_report<'src>(
    ids: Seq<Seq<char>>,
    cs: Seq<CalendarComponent<'src>>,
    k: int,
    z: Seq<char>,
    span: Span,
)
    requires
        !ids.contains(z),
        0 <= k < cs.len(),
        names_zone(cs[k], z, span),
    ensures
        components_missing(ids, cs).contains((z, span)),
    decreases cs.len(),
{
    if k == cs.len() - 1 {
        lemma_component_reports(ids, cs.last(), z, span);
    } else {
        assert(cs.drop_last()[k] == cs[k]);
        lemma_components_report(ids, cs.drop_last(), k, z, span);
    }
    lemma_concat_contains(components_missing(ids, cs.drop_last()), component_missing(ids, cs.last()), (z, span));
}

/// Every `TZID` that a date-time of an event, a to-do or a journal entry
/// names (its start, end or due date, or one of its recurrence or exception
/// dates) and that no `VTIMEZONE` of the calendar defines is reported: the
/// calendar's list of missing time zones holds it, so `validate_tzids`
/// fails, and its errors hold a `TimezoneNotFound` for that `TZID` at the
/// property's span.
pub proof fn lemma_undefined_zone_reported<'src>(
    cs: Seq<CalendarComponent<'src>>,
    k: int,
    z: Seq<char>,
    span: Span,
)
    requires
        0 <= k < cs.len(),
        names_zone(cs[k], z, span),
        !defined_tzids(cs).contains(z),
    ensures
        components_missing(defined_tzids(cs), cs).contains((z, span)),
        components_missing(defined_tzids(cs), cs).len() > 0,
        forall|es: Seq<SemanticError<'static>>|
            #[trigger] tz_errors_are(es, components_missing(defined_tzids(cs), cs)) ==> exists|i: int|
                0 <= i < es.len() && (#[trigger] es[i] matches SemanticError::TimezoneNotFound { tzid, span: s }
                    && tzid@ == z && s == span),
{
    let ids = defined_tzids(cs);
    let ms = components_missing(ids, cs);
    lemma_components_report(ids, cs, k, z, span);
    let w = choose|w: int| 0 <= w < ms.len() && ms[w] == (z, span);
    assert forall|es: Seq<SemanticError<'static>>| #[trigger] tz_errors_are(es, ms) implies exists|i: int|
        0 <= i < es.len() && (#[trigger] es[i] matches SemanticError::TimezoneNotFound { tzid, span: s } && tzid@
            == z && s == span) by {
        assert(es[w] matches SemanticError::TimezoneNotFound { tzid, span: s } && tzid@ == ms[w].0 && s == ms[w].1);
    }
}

} // verus!
