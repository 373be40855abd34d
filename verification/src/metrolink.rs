//! Metrolink's `/Date(milliseconds)/` timestamps.
use vstd::prelude::*;

verus! {

/// Whether `c` is numeric in Unicode's sense, as `char::is_numeric` decides.
pub uninterp spec fn spec_char_is_numeric(c: char) -> bool;

/// Calls `char::is_numeric`. Its documentation says it is true for the characters of the
/// general categories for numbers; of the ASCII characters those are exactly `0` to `9`,
/// which is all that the contract states beyond naming the result.
#[verifier::external_body]
fn char_is_numeric(c: char) -> (b: bool)
    ensures
        b == spec_char_is_numeric(c),
        '0' <= c <= '9' ==> b,
        (c as u32) < 128 && !('0' <= c <= '9') ==> !b,
{
    c.is_numeric()
}

/// The numeric characters of `s`, in order.
pub open spec fn numeric_chars(s: Seq<char>) -> Seq<char>
    decreases s.len(),
{
    if s.len() == 0 {
        Seq::empty()
    } else if spec_char_is_numeric(s.last()) {
        numeric_chars(s.drop_last()).push(s.last())
    } else {
        numeric_chars(s.drop_last())
    }
}

/// The numeric characters of `date` without the last three (the milliseconds); none when
/// there are fewer than three.
pub open spec fn second_digits(date: Seq<char>) -> Seq<char> {
    let n = numeric_chars(date);
    if n.len() >= 3 {
        n.take(n.len() - 3)
    } else {
        Seq::empty()
    }
}

/// Whether every character of `s` is an ASCII digit.
pub open spec fn all_ascii_digits(s: Seq<char>) -> bool {
    forall|i: int| 0 <= i < s.len() ==> '0' <= #[trigger] s[i] <= '9'
}

/// The number that the ASCII digits `s` spell in base ten.
pub open spec fn decimal_value(s: Seq<char>) -> int
    decreases s.len(),
{
    if s.len() == 0 {
        0
    } else {
        decimal_value(s.drop_last()) * 10 + (s.last() as int - '0' as int)
    }
}

/// Whether the seconds of `date` can be read: its numeric characters, less the last three,
/// are a nonempty run of ASCII digits whose value fits a `u64`.
pub open spec fn metrolink_date_readable(date: Seq<char>) -> bool {
    let d = second_digits(date);
    &&& d.len() > 0
    &&& all_ascii_digits(d)
    &&& decimal_value(d) <= u64::MAX
}

/// The seconds since the Unix epoch that a Metrolink `/Date(milliseconds)/` text stands for.
pub open spec fn metrolink_seconds(date: Seq<char>) -> int {
    decimal_value(second_digits(date))
}

/// The value of a run of digits is at least the value of any of its prefixes.
proof fn lemma_decimal_value_prefix(s: Seq<char>, i: int)
    requires
        all_ascii_digits(s),
        0 <= i <= s.len(),
    ensures
        decimal_value(s.take(i)) <= decimal_value(s),
        decimal_value(s) >= 0,
    decreases s.len(),
{
    if s.len() > 0 {
        assert(all_ascii_digits(s.drop_last()));
        if i == s.len() {
            assert(s.take(i) =~= s);
            lemma_decimal_value_prefix(s.drop_last(), 0);
        } else {
            assert(s.drop_last().take(i) =~= s.take(i));
            lemma_decimal_value_prefix(s.drop_last(), i);
        }
    } else {
        assert(s.take(i) =~= s);
    }
}

fn numeric_chars_of(date: &str) -> (v: Vec<char>)
    ensures
        v@ == numeric_chars(date@),
{
    let n = date.unicode_len();
    let mut out: Vec<char> = Vec::new();
    let mut i: usize = 0;
    while i < n
        invariant
            n == date@.len(),
            i <= n,
            out@ == numeric_chars(date@.take(i as int)),
        decreases n - i,
    {
        let c = date.get_char(i);
        assert(date@.take(i + 1).drop_last() =~= date@.take(i as int));
        if char_is_numeric(c) {
            out.push(c);
        }
        i = i + 1;
    }
    assert(date@.take(n as int) =~= date@);
    out
}

/// The seconds of a Metrolink date, or `None` where they cannot be read.
fn read_metrolink_seconds(date: &str) -> (r: Option<u64>)
    ensures
        r is Some <==> metrolink_date_readable(date@),
        r matches Some(v) ==> v == metrolink_seconds(date@),
{
    let numbers = numeric_chars_of(date);
    if numbers.len() < 3 {
        return None;
    }
    let keep = numbers.len() - 3;
    let ghost d = second_digits(date@);
    assert(d =~= numbers@.take(keep as int));
    if keep == 0 {
        return None;
    }
    let mut value: u64 = 0;
    let mut i: usize = 0;
    while i < keep
        invariant
            keep <= numbers.len(),
            d == numbers@.take(keep as int),
            d == second_digits(date@),
            d.len() == keep,
            i <= keep,
            all_ascii_digits(d.take(i as int)),
            value == decimal_value(d.take(i as int)),
        decreases keep - i,
    {
        let c = numbers[i];
        assert(d.take(i + 1).drop_last() =~= d.take(i as int));
        if c < '0' || c > '9' {
            assert(d[i as int] == c);
            assert(!all_ascii_digits(d));
            return None;
        }
        let digit: u64 = (c as u32 - '0' as u32) as u64;
        assert(d[i as int] == c);
        assert(d.take(i + 1).last() == c);
        if value > (u64::MAX - digit) / 10 {
            assert(all_ascii_digits(d.take(i + 1)));
            assert(decimal_value(d.take(i + 1)) == value * 10 + digit);
            proof {
                if all_ascii_digits(d) {
                    lemma_decimal_value_prefix(d, i + 1);
                }
            }
            return None;
        }
        value = value * 10 + digit;
        i = i + 1;
    }
    assert(d.take(keep as int) =~= d);
    Some(value)
}

/// Whether the seconds of a Metrolink date can be read (see `metrolink_date_readable`).
pub fn metrolink_date_is_readable(date: &str) -> (b: bool)
    ensures
        b == metrolink_date_readable(date@),
{
    read_metrolink_seconds(date).is_some()
}

/// The seconds since the Unix epoch of a Metrolink `/Date(milliseconds)/` text: its numeric
/// characters, less the last three, read as a base-ten number.
pub fn metrolink_unix_fix(date: &str) -> (seconds: u64)
    requires
        metrolink_date_readable(date@),
    ensures
        seconds == metrolink_seconds(date@),
{
    match read_metrolink_seconds(date) {
        Some(v) => v,
        None => 0,
    }
}

/// The seconds of a Metrolink date, or `None` where they cannot be read.
pub fn try_metrolink_unix_fix(date: &str) -> (r: Option<u64>)
    ensures
        r is Some <==> metrolink_date_readable(date@),
        r matches Some(v) ==> v == metrolink_seconds(date@),
{
    if metrolink_date_is_readable(date) {
        Some(metrolink_unix_fix(date))
    } else {
        None
    }
}

} // verus!
