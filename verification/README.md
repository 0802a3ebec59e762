# aimcal_ical

Reading iCalendar (RFC 5545) data, verified with Verus.

The library works in four stages, each a module of `src/` with contracts
that state its result exactly:

- `syntax`: a lexer over the bytes of the source, a scanner that reads one
  content line per source line (name, parameters, value, with line folding
  and error recovery), and a tree builder that matches `BEGIN`/`END` lines
  into components. Values borrow the source: each part keeps its span.
- `typed` with `parameter`, `property_value` and `property`: parameters and
  values read into their types (dates, date-times, durations, integers,
  UTC offsets, float notation, texts), then each property converted to the
  property of its kind. Typing errors are reported for every property, in
  order.
- `semantic`: components (`VEVENT`, `VTODO`, `VJOURNAL`, `VFREEBUSY`,
  `VTIMEZONE`, `VALARM`, experimental and unrecognized ones) and the
  calendar, with duplicate, missing and invalid property errors, and the
  check that every `TZID` names a `VTIMEZONE` of the calendar.

Public proof functions state the laws of the library, such as the
round trip of every keyword through its reader, that collecting the
properties of a component loses none, and the span laws of the lexer.

`app/` holds what cannot be verified: the conversion of `FLOAT` values to
`f64`, and the geographic position of `GEO`.
