//! Zero-copy string storage: spans into the source text and values made of
//! several borrowed text segments.

use vstd::prelude::*;
use vstd::string::StringSliceAdditionalSpecFns;

verus! {

/// A span representing a range of byte positions in the source text.
#[derive(Debug, Clone, Copy, PartialEq, Eq, Hash)]
pub struct Span {
    /// Start position of the span
    pub start: usize,
    /// End position of the span
    pub end: usize,
}

impl Span {
    /// Create a new span from start and end positions.
    pub fn new(start: usize, end: usize) -> (s: Span)
        ensures
            s.start == start,
            s.end == end,
    {
        Span { start, end }
    }

    /// Convert to a standard range.
    pub fn into_range(self) -> (r: std::ops::Range<usize>)
        ensures
            r.start == self.start,
            r.end == self.end,
    {
        std::ops::Range { start: self.start, end: self.end }
    }
}

impl From<std::ops::Range<usize>> for Span {
    /// The span of a range: the same start and end.
    fn from(range: std::ops::Range<usize>) -> (s: Span) {
        Span { start: range.start, end: range.end }
    }
}

impl vstd::std_specs::convert::FromSpecImpl<std::ops::Range<usize>> for Span {
    open spec fn obeys_from_spec() -> bool {
        true
    }

    open spec fn from_spec(range: std::ops::Range<usize>) -> Span {
        Span { start: range.start, end: range.end }
    }
}

/// Storage of string values: borrowed segments of the source, or owned strings.
///
/// Borrowed values carry the source span of each part; owned values carry none.
pub trait StringStorage {
    /// The span type of a value: `Span` for borrowed values, `()` for owned ones.
    type Span: std::fmt::Debug;

    /// The characters of the value.
    spec fn text(&self) -> Seq<char>;
}

impl StringStorage for String {
    type Span = ();

    open spec fn text(&self) -> Seq<char> {
        self@
    }
}

impl<'src> StringStorage for SpannedSegments<'src> {
    type Span = Span;

    open spec fn text(&self) -> Seq<char> {
        self@
    }
}

/// Plain character sequences, the model that values of either storage are
/// compared in.
impl StringStorage for Seq<char> {
    type Span = ();

    open spec fn text(&self) -> Seq<char> {
        *self
    }
}

/// The UTF-8 bytes of a sequence of text segments, concatenated in order.
pub open spec fn segments_bytes(segs: Seq<(&str, Span)>) -> Seq<u8>
    decreases segs.len(),
{
    if segs.len() == 0 {
        Seq::empty()
    } else {
        segments_bytes(segs.drop_last()) + segs.last().0.spec_bytes()
    }
}

/// The UTF-8 encoding of joined characters joins their encodings.
pub proof fn lemma_encode_utf8_add(a: Seq<char>, b: Seq<char>)
    ensures
        vstd::utf8::encode_utf8(a + b) == vstd::utf8::encode_utf8(a) + vstd::utf8::encode_utf8(b),
    decreases a.len(),
{
    if a.len() == 0 {
        assert(a + b =~= b);
        assert(vstd::utf8::encode_utf8(a) + vstd::utf8::encode_utf8(b) =~= vstd::utf8::encode_utf8(b));
    } else {
        assert((a + b)[0] == a[0]);
        assert((a + b).drop_first() =~= a.drop_first() + b);
        lemma_encode_utf8_add(a.drop_first(), b);
        let e = vstd::utf8::encode_scalar(a[0] as u32);
        assert(e + (vstd::utf8::encode_utf8(a.drop_first()) + vstd::utf8::encode_utf8(b)) =~= (e
            + vstd::utf8::encode_utf8(a.drop_first())) + vstd::utf8::encode_utf8(b));
    }
}

/// The bytes of segments are the UTF-8 encoding of their characters.
pub proof fn lemma_segments_bytes_chars(segs: Seq<(&str, Span)>)
    ensures
        segments_bytes(segs) == vstd::utf8::encode_utf8(segments_chars(segs)),
    decreases segs.len(),
{
    if segs.len() > 0 {
        lemma_segments_bytes_chars(segs.drop_last());
        lemma_encode_utf8_add(segments_chars(segs.drop_last()), segs.last().0@);
    }
}

/// The characters of a sequence of text segments, concatenated in order.
pub open spec fn segments_chars(segs: Seq<(&str, Span)>) -> Seq<char>
    decreases segs.len(),
{
    if segs.len() == 0 {
        Seq::empty()
    } else {
        segments_chars(segs.drop_last()) + segs.last().0@
    }
}

/// ASCII lower-casing of one byte; every other byte is left unchanged.
pub open spec fn ascii_lower(b: u8) -> u8 {
    if 0x41 <= b <= 0x5a {
        (b + 0x20) as u8
    } else {
        b
    }
}

/// The bytes of an ASCII string are its characters, one byte each.
pub proof fn lemma_ascii_str_bytes(s: &str)
    requires
        vstd::string::is_ascii(s),
    ensures
        s.spec_bytes().len() == s@.len(),
        forall|i: int| 0 <= i < s@.len() ==> #[trigger] s.spec_bytes()[i] == s@[i] as u8,
{
    vstd::string::is_ascii_spec_bytes(s);
}

/// Two byte strings are equal when ASCII letters are compared without case.
#[verifier::opaque]
pub open spec fn eq_ignore_ascii_case(a: Seq<u8>, b: Seq<u8>) -> bool {
    &&& a.len() == b.len()
    &&& forall|i: int| 0 <= i < a.len() ==> #[trigger] ascii_lower(a[i]) == ascii_lower(b[i])
}

fn lower_byte(b: u8) -> (r: u8)
    ensures
        r == ascii_lower(b),
{
    if 0x41 <= b && b <= 0x5a {
        b + 0x20
    } else {
        b
    }
}

/// A collection of spanned text segments: one value that may be spread over
/// several places of the source (for example across a folded line).
#[derive(Debug)]
pub struct SpannedSegments<'src> {
    pub(crate) segments: Vec<(&'src str, Span)>,
    len: usize,
}

impl<'src> SpannedSegments<'src> {
    /// The stored length is the byte length of all segments together.
    #[verifier::type_invariant]
    closed spec fn inv(&self) -> bool {
        self.len as int == segments_bytes(self.segments@).len()
    }

    /// The segments, each with its span.
    pub closed spec fn segs(&self) -> Seq<(&'src str, Span)> {
        self.segments@
    }

    /// The UTF-8 bytes of the whole value.
    pub open spec fn bytes(&self) -> Seq<u8> {
        segments_bytes(self.segs())
    }

    /// Create a new value from a vector of segments.
    pub fn new(segments: Vec<(&'src str, Span)>) -> (r: Self)
        requires
            segments_bytes(segments@).len() <= usize::MAX,
        ensures
            r.segs() == segments@,
    {
        let mut len: usize = 0;
        let mut i: usize = 0;
        while i < segments.len()
            invariant
                0 <= i <= segments.len(),
                segments_bytes(segments@).len() <= usize::MAX,
                len as int == segments_bytes(segments@.take(i as int)).len(),
            decreases segments.len() - i,
        {
            proof {
                assert(segments@.take(i + 1).drop_last() =~= segments@.take(i as int));
                lemma_segments_bytes_prefix_len(segments@, i + 1);
            }
            len = len + segments[i].0.len();
            i = i + 1;
        }
        assert(segments@.take(i as int) =~= segments@);
        SpannedSegments { segments, len }
    }

    /// The empty value, with no segments.
    pub fn empty() -> (r: Self)
        ensures
            r.segs() == Seq::<(&'src str, Span)>::empty(),
    {
        SpannedSegments { segments: Vec::new(), len: 0 }
    }

    /// Get the total length in bytes of all segments.
    pub fn len(&self) -> (r: usize)
        ensures
            r as int == self.bytes().len(),
    {
        proof {
            use_type_invariant(self);
        }
        self.len
    }

    /// Returns `true` if the segments contain no bytes.
    pub fn is_empty(&self) -> (r: bool)
        ensures
            r == (self.bytes().len() == 0),
    {
        proof {
            use_type_invariant(self);
        }
        self.len == 0
    }


    /// Get the full span from first to last segment.
    pub fn span(&self) -> (r: Span)
        ensures
            r == full_span(self.segs()),
            self.segs().len() > 0 ==> r.start == self.segs()[0].1.start && r.end
                == self.segs().last().1.end,
            self.segs().len() == 0 ==> r.start == 0 && r.end == 0,
    {
        let n = self.segments.len();
        if n == 0 {
            Span { start: 0, end: 0 }
        } else {
            Span { start: self.segments[0].1.start, end: self.segments[n - 1].1.end }
        }
    }

    /// Convert to an owned `String` holding all segments in order.
    pub fn to_owned(&self) -> (r: String)
        ensures
            r@ == self@,
            vstd::utf8::encode_utf8(r@) == self.bytes(),
            vstd::utf8::encode_utf8(r@).len() == self.bytes().len(),
    {
        proof {
            lemma_segments_bytes_chars(self.segments@);
        }
        let mut s = String::new();
        let mut k: usize = 0;
        while k < self.segments.len()
            invariant
                0 <= k <= self.segments@.len(),
                s@ == segments_chars(self.segments@.take(k as int)),
            decreases self.segments@.len() - k,
        {
            assert(self.segments@.take(k + 1).drop_last() =~= self.segments@.take(k as int));
            s.append(self.segments[k].0);
            k = k + 1;
        }
        assert(self.segments@.take(k as int) =~= self.segments@);
        s
    }

    /// Resolve the segments into a single string: borrowed when there is a
    /// single segment, owned otherwise.
    pub fn resolve(&self) -> (r: std::borrow::Cow<'src, str>)
        ensures
            r@ == self@,
            self.segs().len() == 1 ==> (r matches std::borrow::Cow::Borrowed(b) && b == self.segs()[0].0),
    {
        if self.segments.len() == 1 {
            assert(self.segments@.drop_last() =~= Seq::<(&'src str, Span)>::empty());
            assert(self@ =~= self.segments@[0].0@) by {
                reveal_with_fuel(segments_chars, 2);
            }
            std::borrow::Cow::Borrowed(self.segments[0].0)
        } else {
            std::borrow::Cow::Owned(self.to_owned())
        }
    }

    /// Compares the first `n` bytes of the value with those of `other`,
    /// ignoring ASCII case.
    fn prefix_eq_ignore_ascii_case(&self, other: &[u8], n: usize) -> (r: bool)
        requires
            n <= self.bytes().len(),
            n <= other@.len(),
        ensures
            r == (forall|i: int|
                0 <= i < n ==> #[trigger] ascii_lower(self.bytes()[i]) == ascii_lower(other@[i])),
    {
        let ghost all = self.bytes();
        let mut pos: usize = 0;
        let mut k: usize = 0;
        while k < self.segments.len() && pos < n
            invariant
                0 <= k <= self.segments@.len(),
                all == segments_bytes(self.segments@),
                pos as int == segments_bytes(self.segments@.take(k as int)).len(),
                pos <= n,
                n <= all.len(),
                n <= other@.len(),
                forall|i: int| 0 <= i < pos ==> #[trigger] ascii_lower(all[i]) == ascii_lower(other@[i]),
            decreases self.segments@.len() - k,
        {
            let seg = self.segments[k].0.as_bytes();
            proof {
                assert(self.segments@.take(k + 1).drop_last() =~= self.segments@.take(k as int));
                lemma_segments_bytes_take_prefix(self.segments@, k + 1);
            }
            let ghost before = segments_bytes(self.segments@.take(k as int));
            let mut j: usize = 0;
            while j < seg.len() && pos < n
                invariant
                    0 <= j <= seg@.len(),
                    pos as int == before.len() + j,
                    pos <= n,
                    all == segments_bytes(self.segments@),
                    n <= all.len(),
                    n <= other@.len(),
                    segments_bytes(self.segments@.take(k + 1)) == before + seg@,
                    segments_bytes(self.segments@.take(k + 1)).len() <= all.len(),
                    forall|i: int| 0 <= i < segments_bytes(self.segments@.take(k + 1)).len()
                        ==> #[trigger] segments_bytes(self.segments@.take(k + 1))[i] == all[i],
                    forall|i: int| 0 <= i < pos ==> #[trigger] ascii_lower(all[i]) == ascii_lower(other@[i]),
                decreases seg@.len() - j,
            {
                assert(segments_bytes(self.segments@.take(k + 1))[pos as int] == seg@[j as int]);
                if lower_byte(seg[j]) != lower_byte(other[pos]) {
                    assert(ascii_lower(self.bytes()[pos as int]) != ascii_lower(other@[pos as int]));
                    return false;
                }
                j = j + 1;
                pos = pos + 1;
            }
            if j < seg.len() {
                // the first `n` bytes have all been compared
                return true;
            }
            k = k + 1;
        }
        if pos < n {
            assert(self.segments@.take(k as int) =~= self.segments@);
        }
        true
    }

    /// The bytes of the whole value, copied into one vector.
    pub fn to_bytes(&self) -> (r: Vec<u8>)
        ensures
            r@ == self.bytes(),
    {
        let mut out: Vec<u8> = Vec::new();
        let mut k: usize = 0;
        while k < self.segments.len()
            invariant
                0 <= k <= self.segments@.len(),
                out@ == segments_bytes(self.segments@.take(k as int)),
            decreases self.segments@.len() - k,
        {
            assert(self.segments@.take(k + 1).drop_last() =~= self.segments@.take(k as int));
            let seg = self.segments[k].0.as_bytes();
            let ghost before = out@;
            let mut j: usize = 0;
            while j < seg.len()
                invariant
                    0 <= j <= seg@.len(),
                    out@ == before + seg@.take(j as int),
                decreases seg@.len() - j,
            {
                out.push(seg[j]);
                j = j + 1;
                assert(out@ =~= before + seg@.take(j as int));
            }
            assert(seg@.take(j as int) =~= seg@);
            k = k + 1;
        }
        assert(self.segments@.take(k as int) =~= self.segments@);
        out
    }

    /// Compare two values ignoring ASCII case.
    pub fn eq_segments_ignore_ascii_case(&self, other: &SpannedSegments) -> (r: bool)
        ensures
            r == eq_ignore_ascii_case(self.bytes(), other.bytes()),
    {
        proof {
            use_type_invariant(self);
        }
        reveal(eq_ignore_ascii_case);
        let ob = other.to_bytes();
        if ob.len() != self.len {
            return false;
        }
        self.prefix_eq_ignore_ascii_case(ob.as_slice(), self.len)
    }

    /// Compare the value to a string ignoring ASCII case.
    pub fn eq_str_ignore_ascii_case(&self, other: &str) -> (r: bool)
        ensures
            r == eq_ignore_ascii_case(self.bytes(), other.spec_bytes()),
    {
        proof {
            use_type_invariant(self);
        }
        reveal(eq_ignore_ascii_case);
        let ob = other.as_bytes();
        if ob.len() != self.len {
            return false;
        }
        self.prefix_eq_ignore_ascii_case(ob, self.len)
    }

    /// Check if the value starts with the given prefix, ignoring ASCII case.
    pub fn starts_with_str_ignore_ascii_case(&self, prefix: &str) -> (r: bool)
        ensures
            r == (prefix.spec_bytes().len() <= self.bytes().len() && eq_ignore_ascii_case(
                self.bytes().take(prefix.spec_bytes().len() as int),
                prefix.spec_bytes(),
            )),
    {
        proof {
            use_type_invariant(self);
        }
        reveal(eq_ignore_ascii_case);
        let pb = prefix.as_bytes();
        if pb.len() > self.len {
            return false;
        }
        let r = self.prefix_eq_ignore_ascii_case(pb, pb.len());
        assert(r == eq_ignore_ascii_case(self.bytes().take(pb@.len() as int), pb@)) by {
            if r {
                assert forall|i: int| 0 <= i < pb@.len() implies #[trigger] ascii_lower(
                    self.bytes().take(pb@.len() as int)[i],
                ) == ascii_lower(pb@[i]) by {
                    assert(ascii_lower(self.bytes()[i]) == ascii_lower(pb@[i]));
                }
            } else {
                let i = choose|i: int|
                    0 <= i < pb@.len() && ascii_lower(self.bytes()[i]) != ascii_lower(pb@[i]);
                assert(ascii_lower(self.bytes().take(pb@.len() as int)[i]) != ascii_lower(pb@[i]));
            }
        }
        r
    }
}

impl<'src> View for SpannedSegments<'src> {
    type V = Seq<char>;

    /// The characters of the whole value.
    open spec fn view(&self) -> Seq<char> {
        segments_chars(self.segs())
    }
}

impl<'src> Default for SpannedSegments<'src> {
    fn default() -> (r: Self)
        ensures
            r.segs() == Seq::<(&'src str, Span)>::empty(),
    {
        SpannedSegments::empty()
    }
}

impl<'src> Clone for SpannedSegments<'src> {
    fn clone(&self) -> (r: Self)
        ensures
            r.segs() == self.segs(),
            r@ == self@,
    {
        proof {
            use_type_invariant(self);
        }
        let mut segments: Vec<(&'src str, Span)> = Vec::new();
        let mut k: usize = 0;
        while k < self.segments.len()
            invariant
                0 <= k <= self.segments@.len(),
                segments@ == self.segments@.take(k as int),
            decreases self.segments@.len() - k,
        {
            let seg = self.segments[k];
            segments.push(seg);
            k = k + 1;
            assert(segments@ =~= self.segments@.take(k as int));
        }
        assert(segments@ =~= self.segments@);
        SpannedSegments { segments, len: self.len }
    }
}

/// The bytes of the first `k` segments are a prefix of the bytes of all of them.
proof fn lemma_segments_bytes_take_prefix(segs: Seq<(&str, Span)>, k: int)
    requires
        0 <= k <= segs.len(),
    ensures
        segments_bytes(segs.take(k)).len() <= segments_bytes(segs).len(),
        forall|i: int|
            0 <= i < segments_bytes(segs.take(k)).len() ==> #[trigger] segments_bytes(segs.take(k))[i]
                == segments_bytes(segs)[i],
    decreases segs.len(),
{
    if k < segs.len() {
        assert(segs.drop_last().take(k) =~= segs.take(k));
        lemma_segments_bytes_take_prefix(segs.drop_last(), k);
    } else {
        assert(segs.take(k) =~= segs);
    }
}

proof fn lemma_segments_bytes_prefix_len(segs: Seq<(&str, Span)>, k: int)
    requires
        0 <= k <= segs.len(),
    ensures
        segments_bytes(segs.take(k)).len() <= segments_bytes(segs).len(),
    decreases segs.len(),
{
    if k < segs.len() {
        assert(segs.drop_last().take(k) =~= segs.take(k));
        lemma_segments_bytes_prefix_len(segs.drop_last(), k);
    } else {
        assert(segs.take(k) =~= segs);
    }
}

/// The span from the first segment to the last; empty at 0 for no segments.
pub open spec fn full_span(segs: Seq<(&str, Span)>) -> Span {
    if segs.len() > 0 {
        Span { start: segs[0].1.start, end: segs.last().1.end }
    } else {
        Span { start: 0, end: 0 }
    }
}

/// Whether a segment is a lone comma (an unescaped value separator).
pub open spec fn is_comma_seg(seg: (&str, Span)) -> bool {
    seg.0.spec_bytes() == seq![44u8]
}

/// The number of backslashes that end the bytes.
pub open spec fn trailing_backslashes(b: Seq<u8>) -> nat
    decreases b.len(),
{
    if b.len() > 0 && b.last() == 92u8 {
        1 + trailing_backslashes(b.drop_last())
    } else {
        0
    }
}

/// Whether the segment at `i` is a lone comma that no backslash escapes:
/// the segment before it does not end with an odd number of backslashes.
pub open spec fn is_separator(segs: Seq<(&str, Span)>, i: int) -> bool {
    is_comma_seg(segs[i]) && !(i > 0 && trailing_backslashes(segs[i - 1].0.spec_bytes()) % 2 == 1)
}

/// The segments split at each unescaped lone comma, in order; the commas
/// are dropped.
pub open spec fn split_comma_segs<'a>(segs: Seq<(&'a str, Span)>) -> Seq<Seq<(&'a str, Span)>>
    decreases segs.len(),
{
    if segs.len() == 0 {
        seq![Seq::empty()]
    } else {
        let prev = split_comma_segs(segs.drop_last());
        if is_separator(segs, segs.len() - 1) {
            prev.push(Seq::empty())
        } else {
            prev.update(prev.len() - 1, prev.last().push(segs.last()))
        }
    }
}

/// A split has at least one part.
pub proof fn lemma_split_comma_segs_len<'a>(segs: Seq<(&'a str, Span)>)
    ensures
        split_comma_segs(segs).len() >= 1,
    decreases segs.len(),
{
    if segs.len() > 0 {
        lemma_split_comma_segs_len(segs.drop_last());
    }
}

/// Whether the bytes end with an odd number of backslashes.
fn odd_trailing_backslashes(b: &[u8]) -> (r: bool)
    ensures
        r == (trailing_backslashes(b@) % 2 == 1),
{
    let mut k: usize = b.len();
    let mut odd = false;
    assert(b@.take(k as int) =~= b@);
    while k > 0 && b[k - 1] == 92u8
        invariant
            k <= b@.len(),
            trailing_backslashes(b@) == trailing_backslashes(b@.take(k as int)) + (b@.len() - k),
            odd == ((b@.len() - k) % 2 == 1),
        decreases k,
    {
        assert(b@.take(k as int).drop_last() =~= b@.take(k - 1));
        k = k - 1;
        odd = !odd;
    }
    assert(trailing_backslashes(b@.take(k as int)) == 0);
    odd
}

impl<'src> SpannedSegments<'src> {
    /// Split the value at each segment that is a lone comma not escaped by
    /// a backslash.
    pub fn split_at_commas(&self) -> (r: Vec<SpannedSegments<'src>>)
        ensures
            r@.len() == split_comma_segs(self.segs()).len(),
            forall|i: int| 0 <= i < r@.len() ==> #[trigger] r@[i].segs() == split_comma_segs(self.segs())[i],
    {
        proof {
            use_type_invariant(self);
        }
        let ghost segs = self.segments@;
        let mut parts: Vec<SpannedSegments<'src>> = Vec::new();
        let mut cur: Vec<(&'src str, Span)> = Vec::new();
        let mut cur_len: usize = 0;
        let mut done_len: usize = 0;
        let mut escaped = false;
        let mut i: usize = 0;
        assert(segs.take(0) =~= Seq::<(&'src str, Span)>::empty());
        while i < self.segments.len()
            invariant
                escaped == (i > 0 && trailing_backslashes(segs[i - 1].0.spec_bytes()) % 2 == 1),
                segs == self.segments@,
                self.len as int == segments_bytes(segs).len(),
                0 <= i <= segs.len(),
                done_len as int == segments_bytes(segs.take(i as int)).len(),
                cur_len as int == segments_bytes(cur@).len(),
                cur_len <= done_len,
                split_comma_segs(segs.take(i as int)).len() == parts@.len() + 1,
                forall|j: int| 0 <= j < parts@.len() ==> #[trigger] parts@[j].segs() == split_comma_segs(
                    segs.take(i as int),
                )[j],
                cur@ == split_comma_segs(segs.take(i as int)).last(),
            decreases segs.len() - i,
        {
            let seg = self.segments[i];
            let ghost pre = segs.take(i as int);
            assert(segs.take(i + 1).drop_last() =~= pre);
            assert(segs.take(i + 1).last() == seg);
            proof {
                lemma_segments_bytes_prefix_len(segs, i + 1);
                lemma_split_comma_segs_len(pre);
            }
            let b = seg.0.as_bytes();
            assert(is_separator(segs.take(i + 1), i as int) == is_separator(segs, i as int));
            if b.len() == 1 && b[0] == 44u8 && !escaped {
                assert(b@ =~= seq![44u8]);
                let part = SpannedSegments { segments: cur, len: cur_len };
                parts.push(part);
                cur = Vec::new();
                cur_len = 0;
            } else {
                assert(!is_separator(segs, i as int));
                let ghost old_cur = cur@;
                cur.push(seg);
                assert(cur@.drop_last() =~= old_cur);
                cur_len = cur_len + seg.0.len();
            }
            done_len = done_len + seg.0.len();
            escaped = odd_trailing_backslashes(b);
            i = i + 1;
        }
        assert(segs.take(i as int) =~= segs);
        let part = SpannedSegments { segments: cur, len: cur_len };
        parts.push(part);
        parts
    }
}

} // verus!
