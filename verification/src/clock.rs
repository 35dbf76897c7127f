//! Wall-clock readings: milliseconds since the Unix epoch, and the
//! time-of-day stamp that prefixes log lines.
use vstd::prelude::*;
use vstd::string::StringExecFns;

verus! {

#[verifier::external_type_specification]
#[verifier::external_body]
pub struct ExInstant(std::time::Instant);

/// The monotonic clock now (`Instant::now`); nothing is stated of the reading.
#[verifier::external_body]
pub(crate) fn instant_now() -> (t: std::time::Instant) {
    std::time::Instant::now()
}

/// The nanoseconds since `start` (`Instant::elapsed`, `Duration::as_nanos`),
/// cut to 64 bits; nothing is stated of the reading.
#[verifier::external_body]
pub(crate) fn elapsed_nanos(start: &std::time::Instant) -> (n: u64) {
    start.elapsed().as_nanos() as u64
}

/// The wall clock (`SystemTime::now().duration_since(UNIX_EPOCH)`), as whole
/// seconds and the milliseconds past them; `None` when the clock is set
/// before 1970. The contract claims only that the milliseconds are below a
/// thousand, as std documents `subsec_millis`; the reading itself depends on
/// the time and is not stated.
#[verifier::external_body]
fn unix_time_now() -> (t: Option<(u64, u32)>)
    ensures
        t matches Some(d) ==> d.1 < 1000,
{
    match std::time::SystemTime::now().duration_since(std::time::UNIX_EPOCH) {
        Ok(d) => Some((d.as_secs(), d.subsec_millis())),
        Err(_) => None,
    }
}

/// Milliseconds since the epoch, as `Duration::as_millis` gives them, cut to
/// 64 bits.
pub fn millis_since_epoch(secs: u64, subsec_millis: u32) -> (ms: u64)
    ensures
        ms as int == (secs * 1000 + subsec_millis) % 0x1_0000_0000_0000_0000,
{
    let a = secs.wrapping_mul(1000);
    let b = a.wrapping_add(subsec_millis as u64);
    proof {
        let m: int = 0x1_0000_0000_0000_0000;
        vstd::arithmetic::div_mod::lemma_add_mod_noop(secs * 1000, subsec_millis as int, m);
        vstd::arithmetic::div_mod::lemma_small_mod(subsec_millis as nat, m as nat);
        vstd::arithmetic::div_mod::lemma_small_mod(b as nat, m as nat);
        vstd::arithmetic::div_mod::lemma_small_mod(a as nat, m as nat);
        assert(a as int == (secs * 1000) % m) by {
            vstd::arithmetic::div_mod::lemma_fundamental_div_mod(secs * 1000, m);
            vstd::arithmetic::div_mod::lemma_mod_bound(secs * 1000, m);
        }
        assert(b as int == (a + subsec_millis) % m) by {
            vstd::arithmetic::div_mod::lemma_fundamental_div_mod(a + subsec_millis, m);
        }
    }
    b
}

/// Milliseconds since the epoch now; `None` when the clock is set before
/// 1970. The reading depends on the time, so nothing more is stated.
pub fn now_ms() -> (ms: Option<u64>) {
    match unix_time_now() {
        Some((secs, millis)) => Some(millis_since_epoch(secs, millis)),
        None => None,
    }
}

/// The hours, minutes and seconds of the day (UTC) and the milliseconds of a
/// time given as seconds and milliseconds since the epoch.
pub open spec fn clock_of_day(secs: u64, millis: u64) -> (u64, u64, u64, u64) {
    (((secs % 86400) / 3600) as u64, ((secs % 3600) / 60) as u64, (secs % 60) as u64, millis)
}

/// The decimal digit `d` as a character.
pub open spec fn digit(d: int) -> char {
    (48 + d) as char
}

/// `n` (below 100) written with two digits.
pub open spec fn two_digits(n: int) -> Seq<char> {
    seq![digit(n / 10), digit(n % 10)]
}

/// `n` (below 1000) written with three digits.
pub open spec fn three_digits(n: int) -> Seq<char> {
    seq![digit(n / 100), digit((n / 10) % 10), digit(n % 10)]
}

/// `HH:MM:SS.mmm`.
pub open spec fn clock_text(h: int, m: int, s: int, ms: int) -> Seq<char> {
    two_digits(h) + seq![':'] + two_digits(m) + seq![':'] + two_digits(s) + seq!['.'] + three_digits(ms)
}

/// The time-of-day stamp `HH:MM:SS.mmm` (UTC) of a time given as seconds and
/// milliseconds since the epoch.
pub open spec fn stamp_of(secs: u64, millis: u64) -> Seq<char> {
    let (h, m, s, ms) = clock_of_day(secs, millis);
    clock_text(h as int, m as int, s as int, ms as int)
}

/// The one-character text of the decimal digit `d`.
fn digit_text(d: u64) -> (t: &'static str)
    requires
        d < 10,
    ensures
        t@ == seq![digit(d as int)],
{
    proof {
        reveal_strlit("0");
        reveal_strlit("1");
        reveal_strlit("2");
        reveal_strlit("3");
        reveal_strlit("4");
        reveal_strlit("5");
        reveal_strlit("6");
        reveal_strlit("7");
        reveal_strlit("8");
        reveal_strlit("9");
    }
    if d == 0 {
        "0"
    } else if d == 1 {
        "1"
    } else if d == 2 {
        "2"
    } else if d == 3 {
        "3"
    } else if d == 4 {
        "4"
    } else if d == 5 {
        "5"
    } else if d == 6 {
        "6"
    } else if d == 7 {
        "7"
    } else if d == 8 {
        "8"
    } else {
        "9"
    }
}

/// Appends `n` (below 100) with two digits.
fn append_two_digits(text: &mut String, n: u64)
    requires
        n < 100,
    ensures
        final(text)@ == old(text)@ + two_digits(n as int),
{
    text.append(digit_text(n / 10));
    text.append(digit_text(n % 10));
    proof {
        assert(final(text)@ =~= old(text)@ + two_digits(n as int)) by {
            assert(seq![digit((n / 10) as int)] + seq![digit((n % 10) as int)] =~= two_digits(n as int));
        }
    }
}

/// Appends `n` (below 1000) with three digits.
fn append_three_digits(text: &mut String, n: u64)
    requires
        n < 1000,
    ensures
        final(text)@ == old(text)@ + three_digits(n as int),
{
    text.append(digit_text(n / 100));
    text.append(digit_text((n / 10) % 10));
    text.append(digit_text(n % 10));
    proof {
        assert(seq![digit((n / 100) as int)] + seq![digit(((n / 10) % 10) as int)] + seq![digit((n % 10) as int)]
            =~= three_digits(n as int));
    }
}

/// Writes `HH:MM:SS.mmm`, each number in decimal and padded with zeros.
fn format_clock(h: u64, m: u64, s: u64, ms: u64) -> (t: String)
    requires
        h < 100,
        m < 100,
        s < 100,
        ms < 1000,
    ensures
        t@ == clock_text(h as int, m as int, s as int, ms as int),
{
    proof {
        reveal_strlit(":");
        reveal_strlit(".");
    }
    let mut t = String::new();
    append_two_digits(&mut t, h);
    t.append(":");
    append_two_digits(&mut t, m);
    t.append(":");
    append_two_digits(&mut t, s);
    t.append(".");
    append_three_digits(&mut t, ms);
    proof {
        assert(t@ =~= clock_text(h as int, m as int, s as int, ms as int));
    }
    t
}

/// The time-of-day stamp `HH:MM:SS.mmm` (UTC) of a time given as seconds and
/// milliseconds since the epoch.
pub fn format_timestamp(secs: u64, millis: u32) -> (t: String)
    requires
        millis < 1000,
    ensures
        ({
            let (h, m, s, ms) = clock_of_day(secs, millis as u64);
            t@ == clock_text(h as int, m as int, s as int, ms as int)
        }),
{
    let day = secs % 86400;
    let h = day / 3600;
    let m = (secs % 3600) / 60;
    let s = secs % 60;
    format_clock(h, m, s, millis as u64)
}

/// The time-of-day stamp of now; `None` when the clock is set before 1970.
/// Which time it reads depends on the clock; whatever it reads, the text is
/// the stamp of some time whose milliseconds are below a thousand.
pub fn timestamp() -> (t: Option<String>)
    ensures
        t matches Some(text) ==> exists|secs: u64, millis: u64|
            millis < 1000 && text@ == #[trigger] stamp_of(secs, millis),
{
    match unix_time_now() {
        Some((secs, millis)) => {
            let text = format_timestamp(secs, millis);
            assert(text@ == stamp_of(secs, millis as u64));
            Some(text)
        },
        None => None,
    }
}

} // verus!
