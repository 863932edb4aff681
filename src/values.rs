//! Value types shared by the tables: service-day times, calendar dates,
//! totally ordered numeric measures and coordinates.
use vstd::prelude::*;
use vstd::string::*;

use chrono::Datelike;

verus! {

/// Seconds in one hour.
pub const SECS_PER_HOUR: u32 = 3600;

/// The first second that is no longer a service-day time (48:00:00).
pub const SERVICE_DAY_LIMIT: u32 = 172800;

/// The value of a decimal digit character.
pub open spec fn digit_value(c: char) -> Option<int> {
    if c == '0' { Some(0) }
    else if c == '1' { Some(1) }
    else if c == '2' { Some(2) }
    else if c == '3' { Some(3) }
    else if c == '4' { Some(4) }
    else if c == '5' { Some(5) }
    else if c == '6' { Some(6) }
    else if c == '7' { Some(7) }
    else if c == '8' { Some(8) }
    else if c == '9' { Some(9) }
    else { None }
}

/// The character that writes a decimal digit.
pub open spec fn digit_char(d: int) -> char {
    if d == 0 { '0' }
    else if d == 1 { '1' }
    else if d == 2 { '2' }
    else if d == 3 { '3' }
    else if d == 4 { '4' }
    else if d == 5 { '5' }
    else if d == 6 { '6' }
    else if d == 7 { '7' }
    else if d == 8 { '8' }
    else { '9' }
}

/// The two-digit number written at positions `i` and `i + 1` of `s`.
pub open spec fn two_digits(s: Seq<char>, i: int) -> Option<int> {
    match (digit_value(s[i]), digit_value(s[i + 1])) {
        (Some(a), Some(b)) => Some(10 * a + b),
        _ => None,
    }
}

/// Hours, minutes and seconds as a count of seconds, when they form a
/// service-day time (hours below 48, minutes and seconds below 60).
pub open spec fn hms_seconds(h: int, m: int, s: int) -> Option<int> {
    if 0 <= h < 48 && 0 <= m < 60 && 0 <= s < 60 {
        Some(h * 3600 + m * 60 + s)
    } else {
        None
    }
}

/// What the text `H:MM:SS` or `HH:MM:SS` denotes, in seconds since the start
/// of the service day.
pub open spec fn service_time_of_text(s: Seq<char>) -> Option<int> {
    if s.len() == 8 && s[2] == ':' && s[5] == ':' {
        match (two_digits(s, 0), two_digits(s, 3), two_digits(s, 6)) {
            (Some(h), Some(m), Some(x)) => hms_seconds(h, m, x),
            _ => None,
        }
    } else if s.len() == 7 && s[1] == ':' && s[4] == ':' {
        match (digit_value(s[0]), two_digits(s, 2), two_digits(s, 5)) {
            (Some(h), Some(m), Some(x)) => hms_seconds(h, m, x),
            _ => None,
        }
    } else {
        None
    }
}

/// The two digits that write `n` (below 100).
pub open spec fn two_digit_text(n: int) -> Seq<char> {
    seq![digit_char(n / 10), digit_char(n % 10)]
}

/// The canonical `HH:MM:SS` text of a count of seconds.
pub open spec fn service_time_text(secs: int) -> Seq<char> {
    two_digit_text(secs / 3600) + seq![':'] + two_digit_text((secs / 60) % 60) + seq![':']
        + two_digit_text(secs % 60)
}

/// A time of the service day, from 00:00:00 to 47:59:59. Hours 24 to 47
/// denote service after midnight that still belongs to the same service day.
#[derive(Clone, Copy, Debug, PartialEq, Eq, PartialOrd, Ord, Hash)]
pub struct NaiveServiceTime {
    /// Seconds since the start of the service day.
    pub secs: u32,
}

impl NaiveServiceTime {
    /// The time is within the service day.
    pub open spec fn wf(&self) -> bool {
        self.secs < SERVICE_DAY_LIMIT
    }

    /// Whether the time lies in the hours 24 to 47.
    pub open spec fn spec_overflow(&self) -> bool {
        self.secs >= 24 * SECS_PER_HOUR
    }

    /// The time with the given hours, minutes and seconds; `None` unless the
    /// hours are below 48 and the minutes and seconds below 60.
    pub fn from_hms(h: u32, m: u32, s: u32) -> (r: Option<NaiveServiceTime>)
        ensures
            match hms_seconds(h as int, m as int, s as int) {
                Some(v) => r == Some(NaiveServiceTime { secs: v as u32 }),
                None => r is None,
            },
    {
        if h < 48 && m < 60 && s < 60 {
            Some(NaiveServiceTime { secs: h * 3600 + m * 60 + s })
        } else {
            None
        }
    }

    /// Whether the time lies in the hours 24 to 47.
    pub fn overflow(&self) -> (r: bool)
        ensures
            r == self.spec_overflow(),
    {
        self.secs >= 24 * SECS_PER_HOUR
    }

    /// Strictly earlier in the service day.
    pub fn lt(&self, other: &NaiveServiceTime) -> (r: bool)
        ensures
            r == (self.secs < other.secs),
    {
        self.secs < other.secs
    }

    /// The time `d` seconds later; past 47:59:59 it stays at 47:59:59.
    pub fn add_secs(&self, d: u64) -> (r: NaiveServiceTime)
        ensures
            r.wf(),
            self.secs + d < SERVICE_DAY_LIMIT ==> r.secs == self.secs + d,
            self.secs + d >= SERVICE_DAY_LIMIT ==> r.secs == SERVICE_DAY_LIMIT - 1,
    {
        if self.secs < SERVICE_DAY_LIMIT && d < (SERVICE_DAY_LIMIT - self.secs) as u64 {
            NaiveServiceTime { secs: self.secs + d as u32 }
        } else {
            NaiveServiceTime { secs: SERVICE_DAY_LIMIT - 1 }
        }
    }

    /// Parses `H:MM:SS` or `HH:MM:SS`.
    pub fn parse(s: &str) -> (r: Option<NaiveServiceTime>)
        ensures
            match service_time_of_text(s@) {
                Some(v) => r == Some(NaiveServiceTime { secs: v as u32 }),
                None => r is None,
            },
    {
        let n = s.unicode_len();
        if n == 8 {
            if s.get_char(2) != ':' || s.get_char(5) != ':' {
                return None;
            }
            let h = read_two_digits(s, 0);
            let m = read_two_digits(s, 3);
            let x = read_two_digits(s, 6);
            match (h, m, x) {
                (Some(h), Some(m), Some(x)) => NaiveServiceTime::from_hms(h, m, x),
                _ => None,
            }
        } else if n == 7 {
            if s.get_char(1) != ':' || s.get_char(4) != ':' {
                return None;
            }
            let h = read_digit(s.get_char(0));
            let m = read_two_digits(s, 2);
            let x = read_two_digits(s, 5);
            match (h, m, x) {
                (Some(h), Some(m), Some(x)) => NaiveServiceTime::from_hms(h, m, x),
                _ => None,
            }
        } else {
            None
        }
    }

    /// The `HH:MM:SS` text of the time.
    pub fn to_text(&self) -> (r: String)
        requires
            self.wf(),
        ensures
            r@ == service_time_text(self.secs as int),
    {
        let mut out = String::new();
        push_two_digits(&mut out, self.secs / 3600);
        out.append(":");
        push_two_digits(&mut out, (self.secs / 60) % 60);
        out.append(":");
        push_two_digits(&mut out, self.secs % 60);
        proof {
            reveal_strlit(":");
            assert(out@ =~= service_time_text(self.secs as int));
        }
        out
    }
}


/// A calendar date.
#[derive(Clone, Copy, Debug, PartialEq, Eq, Hash, Structural)]
pub struct GtfsDate {
    pub year: i32,
    /// 1 to 12.
    pub month: u32,
    /// 1 to 31.
    pub day: u32,
}

impl GtfsDate {
    /// The month lies in 1 to 12 and the day in 1 to 31.
    pub open spec fn wf(&self) -> bool {
        1 <= self.month <= 12 && 1 <= self.day <= 31
    }

    /// `self` is the same date as `other` or an earlier one.
    pub open spec fn spec_le(&self, other: &GtfsDate) -> bool {
        self.year < other.year || (self.year == other.year && (self.month < other.month || (
        self.month == other.month && self.day <= other.day)))
    }

    /// The same date as `other` or an earlier one.
    pub fn le(&self, other: &GtfsDate) -> (r: bool)
        ensures
            r == self.spec_le(other),
    {
        self.year < other.year || (self.year == other.year && (self.month < other.month || (
        self.month == other.month && self.day <= other.day)))
    }
}

/// The order key of non-negative zero.
pub const MEASURE_ZERO: u64 = 0x8000_0000_0000_0000;

/// The order key of the IEEE-754 double with the given bit pattern: for two
/// finite doubles `a` and `b`, `a < b` exactly when the key of `a` is below
/// the key of `b`. Negative zero gets the key of zero.
pub open spec fn measure_key(bits: u64) -> u64 {
    if bits == MEASURE_ZERO {
        MEASURE_ZERO
    } else if bits >= MEASURE_ZERO {
        (u64::MAX - bits) as u64
    } else {
        (bits + MEASURE_ZERO) as u64
    }
}

/// A finite real quantity (a distance, a length, a price, a coordinate),
/// held as an integer key that orders exactly as the quantity does.
#[derive(Clone, Copy, Debug, PartialEq, Eq, Hash, Structural)]
pub struct Measure {
    pub key: u64,
}

impl Measure {
    /// The measure of the double with the given IEEE-754 bit pattern.
    pub fn from_bits(bits: u64) -> (r: Measure)
        ensures
            r.key == measure_key(bits),
    {
        if bits == MEASURE_ZERO {
            Measure { key: MEASURE_ZERO }
        } else if bits >= MEASURE_ZERO {
            Measure { key: u64::MAX - bits }
        } else {
            Measure { key: bits + MEASURE_ZERO }
        }
    }

    /// The quantity is below zero.
    pub open spec fn spec_is_negative(&self) -> bool {
        self.key < MEASURE_ZERO
    }

    /// The quantity is below zero.
    pub fn is_negative(&self) -> (r: bool)
        ensures
            r == self.spec_is_negative(),
    {
        self.key < MEASURE_ZERO
    }

    /// Strictly smaller than `other`.
    pub fn lt(&self, other: &Measure) -> (r: bool)
        ensures
            r == (self.key < other.key),
    {
        self.key < other.key
    }
}

/// The order key of -90.0.
pub const LAT_MIN_KEY: u64 = 0x3fa9_7fff_ffff_ffff;

/// The order key of 90.0.
pub const LAT_MAX_KEY: u64 = 0xc056_8000_0000_0000;

/// The order key of -180.0.
pub const LON_MIN_KEY: u64 = 0x3f99_7fff_ffff_ffff;

/// The order key of 180.0.
pub const LON_MAX_KEY: u64 = 0xc066_8000_0000_0000;

/// A geographic position: latitude and longitude in degrees.
#[derive(Clone, Copy, Debug, PartialEq, Eq, Hash, Structural)]
pub struct GtfsCoord {
    pub lat: Measure,
    pub lon: Measure,
}

impl GtfsCoord {
    /// The latitude lies in [-90, 90] and the longitude in [-180, 180].
    pub open spec fn spec_in_range(&self) -> bool {
        LAT_MIN_KEY <= self.lat.key <= LAT_MAX_KEY && LON_MIN_KEY <= self.lon.key <= LON_MAX_KEY
    }

    /// The latitude lies in [-90, 90] and the longitude in [-180, 180].
    pub fn in_range(&self) -> (r: bool)
        ensures
            r == self.spec_in_range(),
    {
        LAT_MIN_KEY <= self.lat.key && self.lat.key <= LAT_MAX_KEY && LON_MIN_KEY <= self.lon.key
            && self.lon.key <= LON_MAX_KEY
    }
}


/// The number that a string of decimal digits writes (zero for no digits).
pub open spec fn digits_value(s: Seq<char>) -> Option<int>
    decreases s.len(),
{
    if s.len() == 0 {
        Some(0)
    } else {
        match (digits_value(s.drop_last()), digit_value(s.last())) {
            (Some(v), Some(d)) => Some(10 * v + d),
            _ => None,
        }
    }
}

/// The 32-bit unsigned number that a non-empty string of decimal digits
/// writes.
pub open spec fn decimal_u32_of_text(s: Seq<char>) -> Option<int> {
    if s.len() > 0 && digits_value(s) is Some && digits_value(s).unwrap() <= u32::MAX {
        digits_value(s)
    } else {
        None
    }
}

/// Parses a non-empty string of decimal digits as a 32-bit unsigned number.
pub fn parse_decimal_u32(s: &str) -> (r: Option<u32>)
    ensures
        match decimal_u32_of_text(s@) {
            Some(v) => r == Some(v as u32) && 0 <= v <= u32::MAX,
            None => r is None,
        },
{
    let n = s.unicode_len();
    if n == 0 {
        return None;
    }
    let mut acc: u64 = 0;
    let mut big = false;
    let mut i: usize = 0;
    while i < n
        invariant
            n == s@.len(),
            0 <= i <= n,
            digits_value(s@.take(i as int)) is Some,
            digits_value(s@.take(i as int)).unwrap() >= 0,
            !big ==> acc == digits_value(s@.take(i as int)).unwrap() && acc <= u32::MAX,
            big ==> digits_value(s@.take(i as int)).unwrap() > u32::MAX,
        decreases n - i,
    {
        proof {
            assert(s@.take(i + 1).drop_last() =~= s@.take(i as int));
            assert(s@.take(i + 1).last() == s@[i as int]);
        }
        match read_digit(s.get_char(i)) {
            None => {
                proof {
                    lemma_digits_none_extends(s@, i as int + 1);
                }
                return None;
            },
            Some(d) => {
                if !big {
                    acc = acc * 10 + d as u64;
                    if acc > u32::MAX as u64 {
                        big = true;
                    }
                }
            },
        }
        i += 1;
    }
    proof {
        assert(s@.take(n as int) =~= s@);
    }
    if big {
        None
    } else {
        Some(acc as u32)
    }
}

/// A string whose prefix is not all digits is not all digits.
proof fn lemma_digits_none_extends(s: Seq<char>, k: int)
    requires
        0 <= k <= s.len(),
        digits_value(s.take(k)) is None,
    ensures
        digits_value(s) is None,
    decreases s.len() - k,
{
    if k < s.len() {
        assert(s.take(k + 1).drop_last() =~= s.take(k));
        lemma_digits_none_extends(s, k + 1);
    } else {
        assert(s.take(k) =~= s);
    }
}

/// The year, month and day of the date that chrono reads from `s` with the
/// format `%Y%m%d`, if it reads one.
pub uninterp spec fn chrono_ymd_of_text(s: Seq<char>) -> Option<(int, int, int)>;

/// The date that the text `YYYYMMDD` writes, as chrono reads it.
pub open spec fn date_of_text(s: Seq<char>) -> Option<GtfsDate> {
    match chrono_ymd_of_text(s) {
        Some((y, m, d)) => Some(GtfsDate { year: y as i32, month: m as u32, day: d as u32 }),
        None => None,
    }
}

/// Relies on chrono::NaiveDate::parse_from_str with the format `%Y%m%d`: it
/// reads a date only where the text writes a valid calendar date, whose
/// month (Datelike::month) lies in 1 to 12 and day (Datelike::day) in 1 to
/// 31.
#[verifier::external_body]
fn chrono_parse_date(s: &str) -> (r: Option<GtfsDate>)
    ensures
        match chrono_ymd_of_text(s@) {
            Some((y, m, d)) => r == Some((GtfsDate { year: y as i32, month: m as u32, day: d as u32 })),
            None => r is None,
        },
        r is Some ==> r.unwrap().wf(),
{
    chrono::NaiveDate::parse_from_str(s, "%Y%m%d").ok().map(
        |d| GtfsDate { year: d.year(), month: d.month(), day: d.day() },
    )
}

impl GtfsDate {
    /// Parses the text `YYYYMMDD`; impossible dates are rejected.
    pub fn parse(s: &str) -> (r: Option<GtfsDate>)
        ensures
            r == date_of_text(s@),
            r is Some ==> r.unwrap().wf(),
    {
        chrono_parse_date(s)
    }
}

/// The decimal digits that write `n`, without leading zeros.
pub open spec fn decimal_text(n: nat) -> Seq<char>
    decreases n,
{
    if n < 10 {
        seq![digit_char(n as int)]
    } else {
        decimal_text(n / 10).push(digit_char((n % 10) as int))
    }
}

/// Appends the decimal digits of `n`.
pub fn push_decimal(out: &mut String, n: u32)
    ensures
        final(out)@ == old(out)@ + decimal_text(n as nat),
    decreases n,
{
    if n >= 10 {
        push_decimal(out, n / 10);
    }
    push_digit(out, n % 10);
    proof {
        assert(final(out)@ =~= old(out)@ + decimal_text(n as nat));
    }
}

/// The decimal text of `n`.
pub fn decimal_string(n: u32) -> (r: String)
    ensures
        r@ == decimal_text(n as nat),
{
    let mut out = String::new();
    push_decimal(&mut out, n);
    proof {
        assert(out@ =~= decimal_text(n as nat));
    }
    out
}

/// Reads one decimal digit.
pub(crate) fn read_digit(c: char) -> (r: Option<u32>)
    ensures
        match digit_value(c) {
            Some(v) => r == Some(v as u32),
            None => r is None,
        },
{
    if c == '0' { Some(0) }
    else if c == '1' { Some(1) }
    else if c == '2' { Some(2) }
    else if c == '3' { Some(3) }
    else if c == '4' { Some(4) }
    else if c == '5' { Some(5) }
    else if c == '6' { Some(6) }
    else if c == '7' { Some(7) }
    else if c == '8' { Some(8) }
    else if c == '9' { Some(9) }
    else { None }
}

/// Reads the two-digit number at positions `i` and `i + 1`.
pub(crate) fn read_two_digits(s: &str, i: usize) -> (r: Option<u32>)
    requires
        i + 1 < s@.len(),
        i < 8,
    ensures
        match two_digits(s@, i as int) {
            Some(v) => r == Some(v as u32),
            None => r is None,
        },
{
    let a = read_digit(s.get_char(i));
    let b = read_digit(s.get_char(i + 1));
    match (a, b) {
        (Some(a), Some(b)) => Some(10 * a + b),
        _ => None,
    }
}

/// Appends the character of one decimal digit.
fn push_digit(out: &mut String, d: u32)
    requires
        d < 10,
    ensures
        final(out)@ == old(out)@.push(digit_char(d as int)),
{
    let t: &str = if d == 0 { "0" }
        else if d == 1 { "1" }
        else if d == 2 { "2" }
        else if d == 3 { "3" }
        else if d == 4 { "4" }
        else if d == 5 { "5" }
        else if d == 6 { "6" }
        else if d == 7 { "7" }
        else if d == 8 { "8" }
        else { "9" };
    proof {
        reveal_strlit("0");
        reveal_strlit("1");
        reveal_strlit("2");
        reveal_strlit("3");
        reveal_strlit("4");
        reveal_strlit("5");
        reveal_strlit("6");
        reveal_strlit("7");
        reveal_strlit("8");
        reveal_strlit("9");
    }
    out.append(t);
    proof {
        assert(final(out)@ =~= old(out)@.push(digit_char(d as int)));
    }
}

/// Appends the two digits that write `n`.
pub(crate) fn push_two_digits(out: &mut String, n: u32)
    requires
        n < 100,
    ensures
        final(out)@ == old(out)@ + two_digit_text(n as int),
{
    push_digit(out, n / 10);
    push_digit(out, n % 10);
    proof {
        assert(final(out)@ =~= old(out)@ + two_digit_text(n as int));
    }
}

/// Parsing the canonical text of a service-day time gives the time back.
pub proof fn lemma_service_time_round_trip(t: NaiveServiceTime)
    requires
        t.wf(),
    ensures
        service_time_of_text(service_time_text(t.secs as int)) == Some(t.secs as int),
{
    let s = t.secs as int;
    let txt = service_time_text(s);
    let h = s / 3600;
    let m = (s / 60) % 60;
    let x = s % 60;
    assert(0 <= h < 48);
    assert(txt.len() == 8);
    assert(txt[2] == ':' && txt[5] == ':');
    assert(two_digits(txt, 0) == Some(h));
    assert(two_digits(txt, 3) == Some(m));
    assert(two_digits(txt, 6) == Some(x));
    assert(h * 3600 + m * 60 + x == s);
}

} // verus!
