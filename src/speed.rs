use vstd::prelude::*;
use vstd::string::*;

verus! {

/// The text that indicatif's `HumanBytes` shows for `n` bytes.
pub uninterp spec fn human_bytes_of(n: u64) -> Seq<char>;

/// The text that indicatif's `HumanDuration` shows for `n` nanoseconds.
pub uninterp spec fn human_duration_of(n: u64) -> Seq<char>;

/// Relies on the `Display` impl of indicatif's `HumanBytes`, which renders a
/// byte count with a binary prefix; the text depends on `n` alone.
#[verifier::external_body]
pub(crate) fn human_bytes(n: u64) -> (r: String)
    ensures
        r@ == human_bytes_of(n),
{
    format!("{}", indicatif::HumanBytes(n))
}

/// Relies on the `Display` impl of indicatif's `HumanDuration`, which renders
/// a duration in its largest whole unit; the text depends on `n` alone.
#[verifier::external_body]
pub(crate) fn human_duration(n: u64) -> (r: String)
    ensures
        r@ == human_duration_of(n),
{
    format!("{}", indicatif::HumanDuration(std::time::Duration::from_nanos(n)))
}

pub const NANOS_PER_MICRO: u64 = 1_000;

pub const NANOS_PER_MILLI: u64 = 1_000_000;

pub const NANOS_PER_SEC: u64 = 1_000_000_000;

/// The rate of `x` units over `ela` nanoseconds, by a staircase that keeps
/// every product within `usize`:
/// - over a second: `x` per whole second;
/// - over a microsecond, with `x * 1000` in range: `x * 1000` per whole
///   microsecond;
/// - over a millisecond, with `x * 10^6` in range: `x * 10^6` per whole
///   millisecond;
/// - over a nanosecond, with `x * 10^9` in range: `x * 10^9` per nanosecond
///   (the divisor is in the same unit as the scale, so it is never zero);
/// - otherwise zero.
pub open spec fn speed_spec(x: usize, ela: u64) -> usize {
    if ela > NANOS_PER_SEC {
        (x as int / (ela / NANOS_PER_SEC) as int) as usize
    } else if ela > NANOS_PER_MICRO && x < usize::MAX / 1000 {
        (x * 1000int / (ela / NANOS_PER_MICRO) as int) as usize
    } else if ela > NANOS_PER_MILLI && x < usize::MAX / 1_000_000 {
        (x * 1_000_000int / (ela / NANOS_PER_MILLI) as int) as usize
    } else if ela > 1 && x < usize::MAX / 1_000_000_000 {
        (x * 1_000_000_000int / ela as int) as usize
    } else {
        0
    }
}

/// The rate of `x` units over `ela` nanoseconds (see `speed_spec`).
pub fn speed(x: usize, ela: u64) -> (r: usize)
    ensures
        r == speed_spec(x, ela),
{
    let q: u64 = x as u64;
    let (n, d): (u64, u64) = if ela > NANOS_PER_SEC {
        (q, ela / NANOS_PER_SEC)
    } else if ela > NANOS_PER_MICRO && x < usize::MAX / 1000 {
        (q * 1000, ela / NANOS_PER_MICRO)
    } else if ela > NANOS_PER_MILLI && x < usize::MAX / 1_000_000 {
        (q * 1_000_000, ela / NANOS_PER_MILLI)
    } else if ela > 1 && x < usize::MAX / 1_000_000_000 {
        (q * 1_000_000_000, ela)
    } else {
        (0, 1)
    };
    let r = n / d;
    assert(r <= n) by (nonlinear_arith)
        requires
            d >= 1,
            r == n / d,
    ;
    r as usize
}

/// The rate of `x` bytes over `ela` nanoseconds, as human-readable bytes.
pub fn fmt_speed(x: usize, ela: u64) -> (r: String)
    ensures
        r@ == human_bytes_of(speed_spec(x, ela) as u64),
{
    human_bytes(speed(x, ela) as u64)
}

/// Nothing moved gives a rate of zero, over any time.
pub proof fn lemma_speed_of_nothing(ela: u64)
    ensures
        speed_spec(0, ela) == 0,
{
}

/// Over two seconds the rate is half the quantity.
pub proof fn lemma_speed_two_seconds(x: usize)
    ensures
        speed_spec(x, 2_000_000_000) == x / 2,
{
}

/// The decimal digit `d`.
pub open spec fn digit_char(d: int) -> char {
    seq!['0', '1', '2', '3', '4', '5', '6', '7', '8', '9'][d]
}

/// The decimal digits of `n`, without leading zeros.
pub open spec fn decimal_spec(n: nat) -> Seq<char>
    decreases n,
{
    if n < 10 {
        seq![digit_char(n as int)]
    } else {
        decimal_spec(n / 10).push(digit_char((n % 10) as int))
    }
}

fn digit_str(d: usize) -> (r: &'static str)
    requires
        d < 10,
    ensures
        r@ == seq![digit_char(d as int)],
{
    proof {
        reveal_strlit("0");
        reveal_strlit("1");
        reveal_strlit("2");
        reveal_strlit("3");
        reveal_strlit("4");
        reveal_strlit("5");
        reveal_strlit("6");
        reveal_strlit("7");
        reveal_strlit("8");
        reveal_strlit("9");
    }
    let r = match d {
        0 => "0",
        1 => "1",
        2 => "2",
        3 => "3",
        4 => "4",
        5 => "5",
        6 => "6",
        7 => "7",
        8 => "8",
        _ => "9",
    };
    assert(r@ =~= seq![digit_char(d as int)]);
    r
}

/// The decimal digits of `n`.
pub fn decimal(n: usize) -> (r: String)
    ensures
        r@ == decimal_spec(n as nat),
    decreases n,
{
    let d = digit_str(n % 10);
    if n < 10 {
        String::from_str(d)
    } else {
        let mut s = decimal(n / 10);
        s.append(d);
        s
    }
}

} // verus!
