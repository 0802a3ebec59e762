use aimcal_ical::property::datetime::{DateTime, Time};
use aimcal_ical::property::recurrence::{ExDateValue, RDateValue};
use aimcal_ical::property::Property;
use aimcal_ical::syntax::syntax_analysis;
use aimcal_ical::typed::{parsed_property, ParsedProperty, TypedError};
use aimcal_ical::value::ValueDate;

fn property(line: &str) -> ParsedProperty<'static> {
    let src: &'static str = Box::leak(format!("BEGIN:VEVENT\r\n{line}\r\nEND:VEVENT\r\n").into_boxed_str());
    let mut raw = syntax_analysis(src).expect("syntax");
    let mut comp = raw.remove(0);
    assert_eq!(comp.properties.len(), 1);
    parsed_property(comp.properties.remove(0)).expect("typed")
}

fn date(year: i16, month: i8, day: i8) -> ValueDate {
    ValueDate { year, month, day }
}

#[test]
fn exdate_reads_dates_and_tzid() {
    let p = property("EXDATE;TZID=Europe/Paris:20240101T100000,20240102T113000");
    let span = p.span;
    match Property::try_from(p).unwrap() {
        Property::ExDate(x) => {
            assert_eq!(x.dates.len(), 2);
            let first = DateTime::Floating { date: date(2024, 1, 1), time: Time { hour: 10, minute: 0, second: 0 } };
            assert_eq!(x.dates[0], ExDateValue::DateTime(first));
            let second = DateTime::Floating { date: date(2024, 1, 2), time: Time { hour: 11, minute: 30, second: 0 } };
            assert_eq!(x.dates[1], ExDateValue::DateTime(second));
            assert_eq!(x.tz_id.as_ref().unwrap().resolve().as_ref(), "Europe/Paris");
            assert_eq!(x.span, span);
            let owned = x.to_owned();
            assert_eq!(owned.tz_id.as_deref(), Some("Europe/Paris"));
            assert_eq!(owned.dates.len(), 2);
        }
        p => panic!("unexpected {p:?}"),
    }
}

#[test]
fn exdate_reads_plain_dates() {
    let p = property("EXDATE;VALUE=DATE:20240301,20240302");
    match Property::try_from(p).unwrap() {
        Property::ExDate(x) => {
            assert_eq!(x.dates, vec![ExDateValue::Date(date(2024, 3, 1)), ExDateValue::Date(date(2024, 3, 2))]);
            assert!(x.tz_id.is_none());
        }
        p => panic!("unexpected {p:?}"),
    }
}

#[test]
fn exdate_rejects_duplicated_tzid() {
    let p = property("EXDATE;TZID=A;TZID=B:20240101T100000");
    let errs = Property::try_from(p).err().unwrap();
    assert_eq!(errs.len(), 1);
    assert!(matches!(errs[0], TypedError::ParameterDuplicated { .. }));
}

#[test]
fn rdate_reads_dates_and_owns_them() {
    let p = property("RDATE;VALUE=DATE:19970101,19970120");
    match Property::try_from(p).unwrap() {
        Property::RDate(x) => {
            assert_eq!(x.dates.len(), 2);
            assert!(matches!(x.dates[0], RDateValue::Date(d) if d == date(1997, 1, 1)));
            let owned = x.to_owned();
            assert_eq!(owned.dates.len(), 2);
            assert!(matches!(owned.dates[1], RDateValue::Date(d) if d == date(1997, 1, 20)));
        }
        p => panic!("unexpected {p:?}"),
    }
}
