//! Record ranges, shared by the jobs and files modules.

use vstd::prelude::*;

use crate::error::{Error, ErrorView};
use crate::text::{
    chars_of, decimal, extend_chars, find_char, first_index, is_digit, lemma_decimal,
    lemma_u32_from_decimal, nonzero_u32_from_str, parse_nonzero_u32_range, parse_u32_range,
    string_of, u32_chars, u32_from_str, IntErrorKind,
};

verus! {

/// A count of records that is never zero.
#[derive(Clone, Copy, Debug, PartialEq, Eq, Hash)]
pub struct NonZeroU32 {
    value: u32,
}

impl NonZeroU32 {
    #[verifier::type_invariant]
    spec fn nonzero(self) -> bool {
        self.value != 0
    }

    /// The count.
    pub closed spec fn spec_get(self) -> u32 {
        self.value
    }

    /// A count of `value`, unless `value` is zero.
    pub fn new(value: u32) -> (r: Option<NonZeroU32>)
        ensures
            r is Some <==> value != 0,
            r matches Some(n) ==> n.spec_get() == value,
    {
        if value == 0 {
            None
        } else {
            Some(NonZeroU32 { value })
        }
    }

    /// The count, which is not zero.
    pub fn get(&self) -> (r: u32)
        ensures
            r == self.spec_get(),
            r != 0,
    {
        proof {
            use_type_invariant(self);
        }
        self.value
    }
}

/// A range of records: a start and a number of records, or an optional start
/// and an end.
#[derive(Clone, Copy, Debug, PartialEq, Eq, Hash)]
pub enum RecordRange {
    StartCount(u32, NonZeroU32),
    StartEnd(Option<u32>, u32),
}

/// The mathematical value of a [`RecordRange`].
pub enum RecordRangeView {
    StartCount(u32, u32),
    StartEnd(Option<u32>, u32),
}

impl View for RecordRange {
    type V = RecordRangeView;

    open spec fn view(&self) -> RecordRangeView {
        match self {
            RecordRange::StartCount(s, c) => RecordRangeView::StartCount(*s, c.spec_get()),
            RecordRange::StartEnd(s, e) => RecordRangeView::StartEnd(*s, *e),
        }
    }
}

/// The header text of a record range: `start,count`, `start-end` or `-end`.
pub open spec fn record_range_text(r: RecordRangeView) -> Seq<char> {
    match r {
        RecordRangeView::StartCount(s, c) => decimal(s as nat) + seq![','] + decimal(c as nat),
        RecordRangeView::StartEnd(Some(s), e) => decimal(s as nat) + seq!['-'] + decimal(e as nat),
        RecordRangeView::StartEnd(None, e) => seq!['-'] + decimal(e as nat),
    }
}

/// The result of reading a record range from `s`: `-end`, `start-end` (split at
/// the first `-`) or `start,count` (split at the first `,`), each number read
/// as `u32::from_str` reads it (the count as `NonZeroU32::from_str`), the
/// first number first.
pub open spec fn record_range_from_text(s: Seq<char>) -> Result<RecordRangeView, ErrorView> {
    if s.len() > 0 && s[0] == '-' {
        match u32_from_str(s.drop_first()) {
            Ok(e) => Ok(RecordRangeView::StartEnd(None, e)),
            Err(k) => Err(ErrorView::ParseInt(k)),
        }
    } else if let Some(i) = first_index(s, '-') {
        match u32_from_str(s.take(i)) {
            Err(k) => Err(ErrorView::ParseInt(k)),
            Ok(st) => match u32_from_str(s.skip(i + 1)) {
                Ok(e) => Ok(RecordRangeView::StartEnd(Some(st), e)),
                Err(k) => Err(ErrorView::ParseInt(k)),
            },
        }
    } else if let Some(i) = first_index(s, ',') {
        match u32_from_str(s.take(i)) {
            Err(k) => Err(ErrorView::ParseInt(k)),
            Ok(st) => match nonzero_u32_from_str(s.skip(i + 1)) {
                Ok(c) => Ok(RecordRangeView::StartCount(st, c)),
                Err(k) => Err(ErrorView::ParseInt(k)),
            },
        }
    } else {
        Err(ErrorView::RecordRange(s))
    }
}

impl RecordRange {
    /// The value of the `X-IBM-Record-Range` header for this range.
    pub fn to_header_value(&self) -> (r: String)
        ensures
            r@ == record_range_text(self@),
    {
        let mut v: Vec<char> = Vec::new();
        match self {
            RecordRange::StartCount(s, c) => {
                let a = u32_chars(*s);
                extend_chars(&mut v, &a);
                v.push(',');
                let b = u32_chars(c.get());
                extend_chars(&mut v, &b);
            },
            RecordRange::StartEnd(Some(s), e) => {
                let a = u32_chars(*s);
                extend_chars(&mut v, &a);
                v.push('-');
                let b = u32_chars(*e);
                extend_chars(&mut v, &b);
            },
            RecordRange::StartEnd(None, e) => {
                v.push('-');
                let b = u32_chars(*e);
                extend_chars(&mut v, &b);
            },
        }
        proof {
            assert(v@ =~= record_range_text(self@));
        }
        string_of(&v)
    }

    /// Reads a record range from `s`.
    pub fn from_str(s: &str) -> (r: Result<RecordRange, Error>)
        ensures
            match r {
                Ok(v) => record_range_from_text(s@) == Ok::<RecordRangeView, ErrorView>(v@),
                Err(e) => record_range_from_text(s@) == Err::<RecordRangeView, ErrorView>(e@),
            },
    {
        let c = chars_of(s);
        let n = c.len();
        proof {
            assert(c@.subrange(0, n as int) =~= s@);
        }
        if n > 0 && c[0] == '-' {
            proof {
                assert(c@.subrange(1, n as int) =~= s@.drop_first());
            }
            return match parse_u32_range(&c, 1, n) {
                Ok(e) => Ok(RecordRange::StartEnd(None, e)),
                Err(k) => Err(Error::ParseInt(k)),
            };
        }
        match find_char(&c, '-', 0, n) {
            Some(i) => {
                proof {
                    assert(c@.subrange(0, i as int) =~= s@.take(i as int));
                    assert(c@.subrange(i + 1, n as int) =~= s@.skip(i + 1));
                }
                let st = match parse_u32_range(&c, 0, i) {
                    Ok(v) => v,
                    Err(k) => return Err(Error::ParseInt(k)),
                };
                return match parse_u32_range(&c, i + 1, n) {
                    Ok(e) => Ok(RecordRange::StartEnd(Some(st), e)),
                    Err(k) => Err(Error::ParseInt(k)),
                };
            },
            None => {},
        }
        match find_char(&c, ',', 0, n) {
            Some(i) => {
                proof {
                    assert(c@.subrange(0, i as int) =~= s@.take(i as int));
                    assert(c@.subrange(i + 1, n as int) =~= s@.skip(i + 1));
                }
                let st = match parse_u32_range(&c, 0, i) {
                    Ok(v) => v,
                    Err(k) => return Err(Error::ParseInt(k)),
                };
                match parse_nonzero_u32_range(&c, i + 1, n) {
                    Ok(cnt) => {
                        let count = NonZeroU32::new(cnt);
                        match count {
                            Some(count) => Ok(RecordRange::StartCount(st, count)),
                            None => Err(Error::ParseInt(IntErrorKind::Zero)),
                        }
                    },
                    Err(k) => Err(Error::ParseInt(k)),
                }
            },
            None => Err(Error::RecordRange(string_of(&c))),
        }
    }
}

/// Reading the header text of a record range gives the range back.
pub proof fn lemma_record_range_round_trip(r: RecordRangeView)
    requires
        r matches RecordRangeView::StartCount(_, c) ==> c != 0,
    ensures
        record_range_from_text(record_range_text(r)) == Ok::<RecordRangeView, ErrorView>(r),
{
    match r {
        RecordRangeView::StartCount(s, c) => {
            let t = record_range_text(r);
            let a = decimal(s as nat);
            let b = decimal(c as nat);
            lemma_decimal(s as nat);
            lemma_decimal(c as nat);
            lemma_u32_from_decimal(s);
            lemma_u32_from_decimal(c);
            assert(t[0] == a[0]);
            assert forall|j: int| 0 <= j < t.len() implies t[j] != '-' by {
                if j < a.len() {
                    assert(t[j] == a[j]);
                    assert(is_digit(a[j]));
                } else if j > a.len() {
                    assert(t[j] == b[j - a.len() - 1]);
                    assert(is_digit(b[j - a.len() - 1]));
                }
            }
            t.index_of_first_ensures('-');
            t.index_of_first_ensures(',');
            assert(t[a.len() as int] == ',');
            assert forall|j: int| 0 <= j < a.len() implies t[j] != ',' by {
                assert(t[j] == a[j]);
                assert(is_digit(a[j]));
            }
            match t.index_of_first(',') {
                Some(k) => {
                    assert(k == a.len());
                },
                None => {},
            }
            assert(t.take(a.len() as int) =~= a);
            assert(t.skip(a.len() + 1 as int) =~= b);
        },
        RecordRangeView::StartEnd(Some(s), e) => {
            let t = record_range_text(r);
            let a = decimal(s as nat);
            let b = decimal(e as nat);
            lemma_decimal(s as nat);
            lemma_decimal(e as nat);
            lemma_u32_from_decimal(s);
            lemma_u32_from_decimal(e);
            assert(t[0] == a[0]);
            t.index_of_first_ensures('-');
            assert(t[a.len() as int] == '-');
            assert forall|j: int| 0 <= j < a.len() implies t[j] != '-' by {
                assert(t[j] == a[j]);
                assert(is_digit(a[j]));
            }
            match t.index_of_first('-') {
                Some(k) => {
                    assert(k == a.len());
                },
                None => {},
            }
            assert(t.take(a.len() as int) =~= a);
            assert(t.skip(a.len() + 1 as int) =~= b);
        },
        RecordRangeView::StartEnd(None, e) => {
            let t = record_range_text(r);
            lemma_u32_from_decimal(e);
            assert(t.drop_first() =~= decimal(e as nat));
        },
    }
}

} // verus!
