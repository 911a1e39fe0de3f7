//! Calendar timestamps and their strict RFC-3339 text form.
//!
//! The API exchanges every instant as an RFC-3339 string in UTC, such as
//! `2021-09-26T12:55:39.000000000Z`. A [`Timestamp`] holds the broken-down
//! calendar fields as plain integers; rendering and reading the text form are
//! verified against spec-level definitions of the format.

use vstd::prelude::*;

verus! {

/// An instant in UTC, broken down into calendar fields.
#[derive(Structural, PartialEq, Eq, Clone, Copy, Debug)]
pub struct Timestamp {
    pub year: u16,
    pub month: u8,
    pub day: u8,
    pub hour: u8,
    pub minute: u8,
    pub second: u8,
    pub nanosecond: u32,
}

/// True for leap years of the proleptic Gregorian calendar.
pub open spec fn spec_is_leap_year(y: int) -> bool {
    y % 4 == 0 && (y % 100 != 0 || y % 400 == 0)
}

/// The number of days of month `m` of year `y` (months counted from 1).
pub open spec fn spec_days_in_month(y: int, m: int) -> int {
    if m == 2 {
        if spec_is_leap_year(y) { 29 } else { 28 }
    } else if m == 4 || m == 6 || m == 9 || m == 11 {
        30
    } else {
        31
    }
}

impl Timestamp {
    /// The fields describe a real calendar instant with a four-digit year.
    pub open spec fn valid(self) -> bool {
        &&& self.year <= 9999
        &&& 1 <= self.month <= 12
        &&& 1 <= self.day <= spec_days_in_month(self.year as int, self.month as int)
        &&& self.hour <= 23
        &&& self.minute <= 59
        &&& self.second <= 59
        &&& self.nanosecond <= 999_999_999
    }
}

/// The character for the decimal digit `d`.
pub open spec fn spec_digit(d: int) -> char {
    ((48 + d) as u8) as char
}

/// `n` written with exactly `width` decimal digits, most significant first.
pub open spec fn spec_decimal_fixed(n: int, width: nat) -> Seq<char>
    decreases width,
{
    if width == 0 {
        Seq::empty()
    } else {
        spec_decimal_fixed(n / 10, (width - 1) as nat).push(spec_digit(n % 10))
    }
}

/// The strict RFC-3339 rendering that this library emits: UTC, four-digit
/// year, and always nine fractional digits.
pub open spec fn spec_rfc3339(t: Timestamp) -> Seq<char> {
    spec_decimal_fixed(t.year as int, 4) + seq!['-'] + spec_decimal_fixed(t.month as int, 2)
        + seq!['-'] + spec_decimal_fixed(t.day as int, 2) + seq!['T']
        + spec_decimal_fixed(t.hour as int, 2) + seq![':'] + spec_decimal_fixed(
        t.minute as int,
        2,
    ) + seq![':'] + spec_decimal_fixed(t.second as int, 2) + seq!['.'] + spec_decimal_fixed(
        t.nanosecond as int,
        9,
    ) + seq!['Z']
}

/// The one-character text of the decimal digit `d`.
pub fn digit_str(d: u8) -> (r: &'static str)
    requires
        d <= 9,
    ensures
        r@ =~= seq![spec_digit(d as int)],
{
    proof {
        reveal_strlit("0");
        reveal_strlit("1");
        reveal_strlit("2");
        reveal_strlit("3");
        reveal_strlit("4");
        reveal_strlit("5");
        reveal_strlit("6");
        reveal_strlit("7");
        reveal_strlit("8");
        reveal_strlit("9");
    }
    match d {
        0 => "0",
        1 => "1",
        2 => "2",
        3 => "3",
        4 => "4",
        5 => "5",
        6 => "6",
        7 => "7",
        8 => "8",
        _ => "9",
    }
}

/// Appends `n` as exactly `width` decimal digits.
fn push_decimal_fixed(out: &mut String, n: u32, width: u8)
    requires
        width <= 10,
    ensures
        final(out)@ == old(out)@ + spec_decimal_fixed(n as int, width as nat),
    decreases width,
{
    if width == 0 {
        assert(out@ =~= old(out)@ + spec_decimal_fixed(n as int, 0));
    } else {
        push_decimal_fixed(out, n / 10, width - 1);
        out.append(digit_str((n % 10) as u8));
        assert(out@ =~= old(out)@ + spec_decimal_fixed(n as int, width as nat));
    }
}

/// Ten to the power `w`.
pub open spec fn pow10(w: nat) -> int
    decreases w,
{
    if w == 0 {
        1
    } else {
        10 * pow10((w - 1) as nat)
    }
}

/// `c` is a decimal digit character.
pub open spec fn spec_is_digit(c: char) -> bool {
    48 <= c as int <= 57
}

/// Every character of `s` is a decimal digit.
pub open spec fn spec_all_digits(s: Seq<char>) -> bool {
    forall|i: int| 0 <= i < s.len() ==> spec_is_digit(#[trigger] s[i])
}

/// The number that the digit characters of `s` denote, most significant first.
pub open spec fn spec_seq_value(s: Seq<char>) -> int
    decreases s.len(),
{
    if s.len() == 0 {
        0
    } else {
        spec_seq_value(s.drop_last()) * 10 + (s.last() as int - 48)
    }
}

/// A digit run denotes a value below ten to its length.
pub proof fn lemma_seq_value_bound(s: Seq<char>)
    requires
        spec_all_digits(s),
    ensures
        0 <= spec_seq_value(s) < pow10(s.len()),
    decreases s.len(),
{
    if s.len() == 0 {
    } else {
        assert(spec_all_digits(s.drop_last()));
        lemma_seq_value_bound(s.drop_last());
        assert(spec_is_digit(s.last()));
        assert(spec_seq_value(s.drop_last()) * 10 <= (pow10((s.len() - 1) as nat) - 1) * 10)
            by (nonlinear_arith)
            requires
                spec_seq_value(s.drop_last()) <= pow10((s.len() - 1) as nat) - 1,
        ;
    }
}

/// Fixed-width rendering writes exactly `w` digit characters whose value is
/// the rendered number.
pub proof fn lemma_decimal_fixed_props(n: int, w: nat)
    requires
        0 <= n < pow10(w),
    ensures
        spec_decimal_fixed(n, w).len() == w,
        spec_all_digits(spec_decimal_fixed(n, w)),
        spec_seq_value(spec_decimal_fixed(n, w)) == n,
    decreases w,
{
    if w == 0 {
    } else {
        let q = n / 10;
        let r = n % 10;
        assert(0 <= q && q < pow10((w - 1) as nat)) by (nonlinear_arith)
            requires
                0 <= n < 10 * pow10((w - 1) as nat),
                q == n / 10,
                pow10(w) == 10 * pow10((w - 1) as nat),
        ;
        lemma_decimal_fixed_props(q, (w - 1) as nat);
        let prefix = spec_decimal_fixed(q, (w - 1) as nat);
        let s = spec_decimal_fixed(n, w);
        assert(s == prefix.push(spec_digit(r)));
        assert(0 <= r < 10);
        assert(spec_digit(r) as int == 48 + r);
        assert(s.drop_last() =~= prefix);
        assert(s.last() == spec_digit(r));
        assert(spec_all_digits(s)) by {
            assert(forall|i: int|
                0 <= i < s.len() ==> #[trigger] s[i] == if i < w - 1 {
                    prefix[i]
                } else {
                    spec_digit(r)
                });
        }
        assert(spec_seq_value(s) == q * 10 + r);
        assert(n == q * 10 + r) by (nonlinear_arith)
            requires
                q == n / 10,
                r == n % 10,
        ;
    }
}

/// What this library reads as an RFC-3339 instant: the nineteen-character
/// date-time core, an optional fraction of one to nine digits, and a `Z`
/// suffix; the calendar fields must be real.
pub open spec fn spec_parse_rfc3339(s: Seq<char>) -> Option<Timestamp> {
    if s.len() < 20 {
        None
    } else if !(s[4] == '-' && s[7] == '-' && s[10] == 'T' && s[13] == ':' && s[16] == ':') {
        None
    } else {
        let ys = s.subrange(0, 4);
        let mos = s.subrange(5, 7);
        let ds = s.subrange(8, 10);
        let hs = s.subrange(11, 13);
        let mins = s.subrange(14, 16);
        let ss = s.subrange(17, 19);
        if !(spec_all_digits(ys) && spec_all_digits(mos) && spec_all_digits(ds)
            && spec_all_digits(hs) && spec_all_digits(mins) && spec_all_digits(ss)) {
            None
        } else {
            let nano_opt: Option<int> = if s.len() == 20 && s[19] == 'Z' {
                Some(0)
            } else if s[19] == '.' && 22 <= s.len() <= 30 && s[s.len() - 1] == 'Z' {
                let fs = s.subrange(20, s.len() - 1);
                if spec_all_digits(fs) {
                    Some(spec_seq_value(fs) * pow10((9 - fs.len()) as nat))
                } else {
                    None
                }
            } else {
                None
            };
            match nano_opt {
                Option::None => None,
                Option::Some(nano) => {
                    let t = Timestamp {
                        year: spec_seq_value(ys) as u16,
                        month: spec_seq_value(mos) as u8,
                        day: spec_seq_value(ds) as u8,
                        hour: spec_seq_value(hs) as u8,
                        minute: spec_seq_value(mins) as u8,
                        second: spec_seq_value(ss) as u8,
                        nanosecond: nano as u32,
                    };
                    if t.valid() {
                        Some(t)
                    } else {
                        None
                    }
                },
            }
        }
    }
}

/// Renders `t` in the strict RFC-3339 form of [`spec_rfc3339`].
pub fn format_rfc3339(t: &Timestamp) -> (r: String)
    ensures
        r@ == spec_rfc3339(*t),
{
    proof {
        reveal_strlit("-");
        reveal_strlit("T");
        reveal_strlit(":");
        reveal_strlit(".");
        reveal_strlit("Z");
    }
    let mut out = String::new();
    push_decimal_fixed(&mut out, t.year as u32, 4);
    out.append("-");
    push_decimal_fixed(&mut out, t.month as u32, 2);
    out.append("-");
    push_decimal_fixed(&mut out, t.day as u32, 2);
    out.append("T");
    push_decimal_fixed(&mut out, t.hour as u32, 2);
    out.append(":");
    push_decimal_fixed(&mut out, t.minute as u32, 2);
    out.append(":");
    push_decimal_fixed(&mut out, t.second as u32, 2);
    out.append(".");
    push_decimal_fixed(&mut out, t.nanosecond, 9);
    out.append("Z");
    assert(out@ =~= spec_rfc3339(*t));
    out
}

/// Relies on time's `OffsetDateTime::now_utc`: the clock's current instant,
/// read in UTC. Nothing is promised about which instant it is, only that its
/// calendar fields are in range, which time guarantees of every value it
/// returns.
#[verifier::external_body]
pub fn now_utc() -> (r: Timestamp)
    ensures
        r.valid(),
{
    let t = time::OffsetDateTime::now_utc();
    Timestamp {
        year: t.year() as u16,
        month: u8::from(t.month()),
        day: t.day(),
        hour: t.hour(),
        minute: t.minute(),
        second: t.second(),
        nanosecond: t.nanosecond(),
    }
}

/// The number of days of month `m` of year `y`.
pub fn days_in_month(y: u16, m: u8) -> (r: u8)
    requires
        1 <= m <= 12,
    ensures
        r as int == spec_days_in_month(y as int, m as int),
{
    if m == 2 {
        if y % 4 == 0 && (y % 100 != 0 || y % 400 == 0) {
            29
        } else {
            28
        }
    } else if m == 4 || m == 6 || m == 9 || m == 11 {
        30
    } else {
        31
    }
}

/// Decides [`Timestamp::valid`].
pub fn is_valid_timestamp(t: &Timestamp) -> (r: bool)
    ensures
        r == t.valid(),
{
    t.year <= 9999 && 1 <= t.month && t.month <= 12 && 1 <= t.day && t.day <= days_in_month(
        t.year,
        t.month,
    ) && t.hour <= 23 && t.minute <= 59 && t.second <= 59 && t.nanosecond <= 999_999_999
}

/// Reads the digit run `s[start..end]` as a number.
fn parse_decimal_run(s: &str, start: usize, end: usize) -> (r: Option<u32>)
    requires
        start <= end <= s@.len(),
        end - start <= 9,
    ensures
        match r {
            Option::Some(v) => spec_all_digits(s@.subrange(start as int, end as int)) && v as int
                == spec_seq_value(s@.subrange(start as int, end as int)),
            Option::None => !spec_all_digits(s@.subrange(start as int, end as int)),
        },
{
    let mut value: u32 = 0;
    let mut i: usize = start;
    while i < end
        invariant
            start <= i <= end <= s@.len(),
            end - start <= 9,
            spec_all_digits(s@.subrange(start as int, i as int)),
            value as int == spec_seq_value(s@.subrange(start as int, i as int)),
            value < pow10((i - start) as nat),
        decreases end - i,
    {
        let c = s.get_char(i);
        let v = c as u32;
        if !(48 <= v && v <= 57) {
            assert(s@.subrange(start as int, end as int)[i - start] == s@[i as int]);
            return None;
        }
        proof {
            let pre = s@.subrange(start as int, i as int);
            let cur = s@.subrange(start as int, i + 1);
            assert(cur.drop_last() =~= pre);
            assert(cur.last() == s@[i as int]);
            lemma_seq_value_bound(pre);
            assert(pow10(((i + 1) - start) as nat) == 10 * pow10((i - start) as nat));
            assert(value * 10 + (v - 48) < 10 * pow10((i - start) as nat)) by (nonlinear_arith)
                requires
                    value < pow10((i - start) as nat),
                    v - 48 < 10,
            ;
            lemma_pow10_concrete();
            lemma_pow10_increases(((i + 1) - start) as nat, 9);
        }
        value = value * 10 + (v - 48);
        i = i + 1;
    }
    Some(value)
}

/// The first few powers of ten, written out.
proof fn lemma_pow10_concrete()
    ensures
        pow10(0) == 1,
        pow10(1) == 10,
        pow10(2) == 100,
        pow10(3) == 1000,
        pow10(4) == 10000,
        pow10(5) == 100000,
        pow10(6) == 1000000,
        pow10(7) == 10000000,
        pow10(8) == 100000000,
        pow10(9) == 1_000_000_000,
{
    reveal_with_fuel(pow10, 11);
}

/// `pow10` grows with the exponent.
proof fn lemma_pow10_increases(a: nat, b: nat)
    requires
        a <= b,
    ensures
        pow10(a) <= pow10(b),
        1 <= pow10(a),
    decreases b,
{
    if a < b {
        lemma_pow10_increases(a, (b - 1) as nat);
    } else {
        lemma_pow10_increases_base(a);
    }
}

/// `pow10` is at least one.
proof fn lemma_pow10_increases_base(a: nat)
    ensures
        1 <= pow10(a),
    decreases a,
{
    if a > 0 {
        lemma_pow10_increases_base((a - 1) as nat);
    }
}

/// Reads an RFC-3339 instant as [`spec_parse_rfc3339`] describes.
pub fn parse_rfc3339(s: &str) -> (r: Option<Timestamp>)
    ensures
        r == spec_parse_rfc3339(s@),
{
    let n = s.unicode_len();
    if n < 20 {
        return None;
    }
    if !(s.get_char(4) == '-' && s.get_char(7) == '-' && s.get_char(10) == 'T' && s.get_char(13)
        == ':' && s.get_char(16) == ':') {
        return None;
    }
    let year = parse_decimal_run(s, 0, 4);
    let month = parse_decimal_run(s, 5, 7);
    let day = parse_decimal_run(s, 8, 10);
    let hour = parse_decimal_run(s, 11, 13);
    let minute = parse_decimal_run(s, 14, 16);
    let second = parse_decimal_run(s, 17, 19);
    let (y, mo, d, h, mi, se) = match (year, month, day, hour, minute, second) {
        (Some(a), Some(b), Some(c), Some(dd), Some(e), Some(f)) => (a, b, c, dd, e, f),
        _ => {
            return None;
        },
    };
    let tail = s.get_char(19);
    let nano: u32 = if n == 20 && tail == 'Z' {
        0
    } else if tail == '.' && 22 <= n && n <= 30 && s.get_char(n - 1) == 'Z' {
        match parse_decimal_run(s, 20, n - 1) {
            Some(f) => {
                let width = 9 - (n - 21);
                proof {
                    let fs = s@.subrange(20, n - 1);
                    lemma_seq_value_bound(fs);
                    lemma_pow10_concrete();
                    lemma_pow10_increases((9 - fs.len()) as nat, 9);
                    lemma_pow10_adds(fs.len(), (9 - fs.len()) as nat);
                    assert(spec_seq_value(fs) * pow10((9 - fs.len()) as nat) < pow10(9))
                        by (nonlinear_arith)
                        requires
                            spec_seq_value(fs) < pow10(fs.len()),
                            pow10(fs.len()) * pow10((9 - fs.len()) as nat) == pow10(9),
                            pow10((9 - fs.len()) as nat) >= 1,
                            spec_seq_value(fs) >= 0,
                    ;
                }
                f * pow10_u32(width)
            },
            None => {
                return None;
            },
        }
    } else {
        return None;
    };
    let t = Timestamp {
        year: y as u16,
        month: mo as u8,
        day: d as u8,
        hour: h as u8,
        minute: mi as u8,
        second: se as u8,
        nanosecond: nano,
    };
    proof {
        lemma_seq_value_bound(s@.subrange(0, 4));
        lemma_seq_value_bound(s@.subrange(5, 7));
        lemma_seq_value_bound(s@.subrange(8, 10));
        lemma_seq_value_bound(s@.subrange(11, 13));
        lemma_seq_value_bound(s@.subrange(14, 16));
        lemma_seq_value_bound(s@.subrange(17, 19));
    }
    if is_valid_timestamp(&t) {
        Some(t)
    } else {
        None
    }
}

/// `pow10` turns addition of exponents into multiplication.
proof fn lemma_pow10_adds(a: nat, b: nat)
    ensures
        pow10(a) * pow10(b) == pow10((a + b) as nat),
    decreases a,
{
    if a == 0 {
    } else {
        lemma_pow10_adds((a - 1) as nat, b);
        assert(pow10(a) * pow10(b) == 10 * (pow10((a - 1) as nat) * pow10(b)))
            by (nonlinear_arith)
            requires
                pow10(a) == 10 * pow10((a - 1) as nat),
        ;
    }
}

/// Ten to the power `w`, for exponents that fit a `u32`.
fn pow10_u32(w: usize) -> (r: u32)
    requires
        w <= 9,
    ensures
        r as int == pow10(w as nat),
{
    let mut r: u32 = 1;
    let mut i: usize = 0;
    while i < w
        invariant
            i <= w <= 9,
            r as int == pow10(i as nat),
        decreases w - i,
    {
        proof {
            lemma_pow10_concrete();
            lemma_pow10_increases((i + 1) as nat, 9);
        }
        r = r * 10;
        i = i + 1;
    }
    r
}

/// Reading back what [`format_rfc3339`] wrote yields the same instant.
///
/// For every valid timestamp, the strict RFC-3339 rendering parses to the
/// original value.
pub proof fn lemma_rfc3339_roundtrip(t: Timestamp)
    requires
        t.valid(),
    ensures
        spec_parse_rfc3339(spec_rfc3339(t)) == Some(t),
{
    let s = spec_rfc3339(t);
    lemma_pow10_concrete();
    lemma_decimal_fixed_props(t.year as int, 4);
    lemma_decimal_fixed_props(t.month as int, 2);
    lemma_decimal_fixed_props(t.day as int, 2);
    lemma_decimal_fixed_props(t.hour as int, 2);
    lemma_decimal_fixed_props(t.minute as int, 2);
    lemma_decimal_fixed_props(t.second as int, 2);
    lemma_decimal_fixed_props(t.nanosecond as int, 9);
    assert(pow10(2) == 100);
    assert(pow10(4) == 10000);
    assert(pow10(9) == 1_000_000_000);
    assert(s.len() == 30);
    assert(s.subrange(0, 4) =~= spec_decimal_fixed(t.year as int, 4));
    assert(s[4] == '-');
    assert(s.subrange(5, 7) =~= spec_decimal_fixed(t.month as int, 2));
    assert(s[7] == '-');
    assert(s.subrange(8, 10) =~= spec_decimal_fixed(t.day as int, 2));
    assert(s[10] == 'T');
    assert(s.subrange(11, 13) =~= spec_decimal_fixed(t.hour as int, 2));
    assert(s[13] == ':');
    assert(s.subrange(14, 16) =~= spec_decimal_fixed(t.minute as int, 2));
    assert(s[16] == ':');
    assert(s.subrange(17, 19) =~= spec_decimal_fixed(t.second as int, 2));
    assert(s[19] == '.');
    assert(s.subrange(20, 29) =~= spec_decimal_fixed(t.nanosecond as int, 9));
    assert(s[29] == 'Z');
    assert(spec_seq_value(s.subrange(20, 29)) * pow10(0) == t.nanosecond as int);
}

} // verus!
