//! The JSON API that client-side code calls: markdown conversion and
//! timestamp formatting.

use vstd::prelude::*;

use crate::config::Config;
use crate::markdown::{markdown_html, to_html};
use crate::page::zone_of;
use crate::unix_time::{utc_datetime_text, zoned_datetime_text, UnixTime, MAX_TIMESTAMP};

verus! {

/// A request to convert markdown to HTML.
#[derive(Debug, Clone)]
pub struct RequestMarkdownParse {
    pub markdown_text: String,
}

/// The HTML that a markdown text converts to.
#[derive(Debug, Clone)]
pub struct ResponseMarkdownParse {
    pub html: String,
}

/// An instant written both ways: `datetime` in UTC for machines, `formatted`
/// in the site's zone for readers.
#[derive(Debug, Clone)]
pub struct TimestampFormat {
    pub datetime: String,
    pub formatted: String,
}

/// Converts the text as it is, and hands the HTML back as it is.
pub fn markdown_parse(request: &RequestMarkdownParse) -> (r: ResponseMarkdownParse)
    ensures
        r.html@ == markdown_html(request.markdown_text@),
{
    ResponseMarkdownParse { html: to_html(request.markdown_text.as_str()) }
}

pub open spec fn is_digit(c: char) -> bool {
    '0' <= c <= '9'
}

pub open spec fn all_digits(s: Seq<char>) -> bool {
    forall|i: int| 0 <= i < s.len() ==> is_digit(#[trigger] s[i])
}

/// The number that decimal digits write.
pub open spec fn digits_value(s: Seq<char>) -> int
    decreases s.len(),
{
    if s.len() == 0 {
        0
    } else {
        digits_value(s.drop_last()) * 10 + (s.last() as int - '0' as int)
    }
}

/// The digits of a decimal text, after an optional `+`.
pub open spec fn unsigned_digits(s: Seq<char>) -> Seq<char> {
    if s.len() > 0 && s[0] == '+' {
        s.drop_first()
    } else {
        s
    }
}

/// A `u64` as Rust's `u64::from_str` reads it: an optional `+`, then one or
/// more decimal digits of a value that fits.
pub open spec fn parsed_u64(s: Seq<char>) -> Option<u64> {
    let d = unsigned_digits(s);
    if d.len() > 0 && all_digits(d) && digits_value(d) <= u64::MAX {
        Some(digits_value(d) as u64)
    } else {
        None
    }
}

/// The instant that the `timestamp` query value names: 0 where it is absent
/// or does not read as a `u64`.
pub open spec fn timestamp_value(timestamp: Option<&str>) -> u64 {
    match timestamp {
        Some(s) => match parsed_u64(s@) {
            Some(v) => v,
            None => 0,
        },
        None => 0,
    }
}

proof fn lemma_digits_value_nonneg(s: Seq<char>)
    requires
        all_digits(s),
    ensures
        digits_value(s) >= 0,
    decreases s.len(),
{
    if s.len() > 0 {
        assert(all_digits(s.drop_last()));
        lemma_digits_value_nonneg(s.drop_last());
        assert(is_digit(s[s.len() - 1]));
    }
}

proof fn lemma_digits_value_grows(s: Seq<char>, k: int)
    requires
        all_digits(s),
        0 <= k <= s.len(),
    ensures
        digits_value(s.subrange(0, k)) <= digits_value(s),
    decreases s.len() - k,
{
    if k == s.len() {
        assert(s.subrange(0, k) =~= s);
    } else {
        let a = s.subrange(0, k);
        let b = s.subrange(0, k + 1);
        assert(b.drop_last() =~= a);
        assert(all_digits(a));
        lemma_digits_value_nonneg(a);
        assert(is_digit(s[k]));
        assert(b.last() == s[k]);
        assert(digits_value(a) <= digits_value(b)) by (nonlinear_arith)
            requires
                digits_value(b) == digits_value(a) * 10 + (s[k] as int - '0' as int),
                digits_value(a) >= 0,
                s[k] as int - '0' as int >= 0,
        ;
        lemma_digits_value_grows(s, k + 1);
    }
}

/// Reads a `u64` as `u64::from_str` does; 0 where the text does not read as one.
pub fn parse_timestamp(s: &str) -> (r: u64)
    ensures
        r == match parsed_u64(s@) {
            Some(v) => v,
            None => 0u64,
        },
{
    let n: usize = s.unicode_len();
    let mut start: usize = 0;
    if n > 0 && s.get_char(0) == '+' {
        start = 1;
    }
    let ghost d = unsigned_digits(s@);
    assert(d =~= s@.subrange(start as int, n as int));
    if start == n {
        return 0;
    }
    let mut v: u64 = 0;
    let mut i: usize = start;
    assert(s@.subrange(start as int, i as int) =~= Seq::<char>::empty());
    while i < n
        invariant
            start <= i <= n,
            n == s@.len(),
            d == s@.subrange(start as int, n as int),
            d == unsigned_digits(s@),
            d.len() > 0,
            all_digits(s@.subrange(start as int, i as int)),
            v == digits_value(s@.subrange(start as int, i as int)),
        decreases n - i,
    {
        let c = s.get_char(i);
        if c < '0' || c > '9' {
            assert(d[i - start] == c);
            assert(!all_digits(d));
            return 0;
        }
        let dv: u64 = (c as u32 - '0' as u32) as u64;
        let ghost next = s@.subrange(start as int, i as int + 1);
        assert(next.drop_last() =~= s@.subrange(start as int, i as int));
        assert(next.last() == c);
        assert(all_digits(next));
        if v > (u64::MAX - dv) / 10 {
            proof {
                assert(v * 10 + dv > u64::MAX) by (nonlinear_arith)
                    requires
                        v > (u64::MAX - dv) / 10,
                        dv <= 9,
                ;
                if all_digits(d) {
                    assert(d.subrange(0, i - start + 1) =~= next);
                    lemma_digits_value_grows(d, i - start + 1);
                }
            }
            return 0;
        }
        v = v * 10 + dv;
        i = i + 1;
    }
    assert(s@.subrange(start as int, i as int) =~= d);
    v
}

/// The instant named by the `timestamp` query value, written both ways; none
/// where it lies beyond what can be written as a date.
pub fn timestamp_format(timestamp: Option<&str>, config: &Config) -> (r: Option<TimestampFormat>)
    ensures
        r is Some <==> timestamp_value(timestamp) <= MAX_TIMESTAMP,
        r matches Some(f) ==> f.datetime@ == utc_datetime_text(timestamp_value(timestamp) as int)
            && f.formatted@ == zoned_datetime_text(
            timestamp_value(timestamp) as int,
            zone_of(*config),
        ),
{
    let secs: u64 = match timestamp {
        Some(s) => parse_timestamp(s),
        None => 0,
    };
    if secs > MAX_TIMESTAMP {
        return None;
    }
    let zone = config.server_timezone();
    let t = UnixTime::new(secs);
    Some(
        TimestampFormat {
            datetime: t.to_utc_datetime_string(),
            formatted: t.default_format_in_timezone(zone.as_str()),
        },
    )
}

} // verus!
