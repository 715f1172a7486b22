//! Human-readable amounts of traffic and of time, and the tone of a log line.
use crate::number::{decimal, decimal_chars, digit_char};
use crate::text::{push_all, push_str, string_of};
use vstd::prelude::*;

verus! {

/// `n / d` rounded to the nearest integer, a tie going to the even one.
pub open spec fn div_round_half_even(n: nat, d: nat) -> nat
    recommends
        d > 0,
{
    let q = n / d;
    let r = n % d;
    if 2 * r > d || (2 * r == d && q % 2 == 1) {
        q + 1
    } else {
        q
    }
}

/// The spacing of the doubles near `b`: 1 below 2^53, doubling with each
/// further bit of `b`.
pub open spec fn f64_spacing(b: nat) -> nat
    decreases b,
{
    if b < 0x20_0000_0000_0000 {
        1
    } else {
        2 * f64_spacing(b / 2)
    }
}

/// `b as f64`: the nearest double, a tie going to the even one.
pub open spec fn as_f64_value(b: nat) -> nat {
    div_round_half_even(b, f64_spacing(b)) * f64_spacing(b)
}

/// The text of `value / unit` with one decimal, as `{:.1}` writes it:
/// rounded to the nearest tenth, a tie going to the even tenth.
pub open spec fn tenths_text(value: nat, unit: nat) -> Seq<char> {
    let t = div_round_half_even(10 * value, unit);
    decimal(t / 10) + seq!['.', digit_char(t % 10)]
}

/// The text of a number of bytes: whole bytes below one KiB, else the
/// amount in the largest binary unit it reaches, with one decimal.
pub open spec fn bytes_text(bytes: nat) -> Seq<char> {
    if bytes >= 0x4000_0000 {
        tenths_text(as_f64_value(bytes), 0x4000_0000) + " GB"@
    } else if bytes >= 0x10_0000 {
        tenths_text(as_f64_value(bytes), 0x10_0000) + " MB"@
    } else if bytes >= 0x400 {
        tenths_text(as_f64_value(bytes), 0x400) + " KB"@
    } else {
        decimal(bytes) + " B"@
    }
}

/// A value within half a step of `t` steps rounds to `t`.
proof fn lemma_round_to_nearest(n: nat, d: nat, t: nat)
    requires
        d > 0,
        2 * (n - t * d) < d,
        2 * (t * d - n) < d,
    ensures
        div_round_half_even(n, d) == t,
{
    let q = n / d;
    let r = n % d;
    assert(n == q * d + r && 0 <= r < d) by (nonlinear_arith)
        requires
            d > 0,
            q == n / d,
            r == n % d,
    ;
    if t * d <= n {
        assert(q == t && r == n - t * d) by (nonlinear_arith)
            requires
                n == q * d + r,
                0 <= r < d,
                t * d <= n,
                2 * (n - t * d) < d,
                d > 0,
        ;
    } else {
        assert(q + 1 == t && 2 * r > d) by (nonlinear_arith)
            requires
                n == q * d + r,
                0 <= r < d,
                t * d > n,
                2 * (t * d - n) < d,
                d > 0,
        ;
    }
}

/// The text names the amount it stands for: whole bytes below one KiB, and
/// from there on the number of tenths `t` of the largest unit reached
/// (KiB, MiB, GiB) that lies nearest to the amount, shown as `t / 10`, a
/// point and the last digit of `t`.
pub proof fn lemma_bytes_text_names_amount(bytes: nat, t: nat)
    ensures
        bytes < 0x400 ==> bytes_text(bytes) == decimal(bytes) + " B"@,
        0x400 <= bytes < 0x10_0000 && 2 * (10 * bytes - t * 0x400) < 0x400 && 2 * (t * 0x400
            - 10 * bytes) < 0x400 ==> bytes_text(bytes) == decimal(t / 10) + seq![
            '.',
            digit_char(t % 10),
        ] + " KB"@,
        0x10_0000 <= bytes < 0x4000_0000 && 2 * (10 * bytes - t * 0x10_0000) < 0x10_0000 && 2
            * (t * 0x10_0000 - 10 * bytes) < 0x10_0000 ==> bytes_text(bytes) == decimal(t / 10)
            + seq!['.', digit_char(t % 10)] + " MB"@,
        0x4000_0000 <= bytes < 0x20_0000_0000_0000 && 2 * (10 * bytes - t * 0x4000_0000)
            < 0x4000_0000 && 2 * (t * 0x4000_0000 - 10 * bytes) < 0x4000_0000
            ==> bytes_text(bytes) == decimal(t / 10) + seq!['.', digit_char(t % 10)] + " GB"@,
{
    if bytes < 0x20_0000_0000_0000 {
        assert(f64_spacing(bytes) == 1);
        assert(div_round_half_even(bytes, 1) == bytes);
        assert(as_f64_value(bytes) == bytes);
    }
    if 0x400 <= bytes < 0x10_0000 && 2 * (10 * bytes - t * 0x400) < 0x400 && 2 * (t * 0x400
        - 10 * bytes) < 0x400 {
        lemma_round_to_nearest(10 * bytes, 0x400, t);
    }
    if 0x10_0000 <= bytes < 0x4000_0000 && 2 * (10 * bytes - t * 0x10_0000) < 0x10_0000 && 2 * (t
        * 0x10_0000 - 10 * bytes) < 0x10_0000 {
        lemma_round_to_nearest(10 * bytes, 0x10_0000, t);
    }
    if 0x4000_0000 <= bytes < 0x20_0000_0000_0000 && 2 * (10 * bytes - t * 0x4000_0000)
        < 0x4000_0000 && 2 * (t * 0x4000_0000 - 10 * bytes) < 0x4000_0000 {
        lemma_round_to_nearest(10 * bytes, 0x4000_0000, t);
    }
}

fn div_round_half_even_exec(n: u128, d: u128) -> (r: u128)
    requires
        d > 0,
        n < 0x1_0000_0000_0000_0000_0000,
    ensures
        r == div_round_half_even(n as nat, d as nat),
        r <= n / d + 1,
{
    let q = n / d;
    let rem = n % d;
    if rem > d - rem || (rem == d - rem && q % 2 == 1) {
        q + 1
    } else {
        q
    }
}

proof fn lemma_spacing_positive(b: nat)
    ensures
        f64_spacing(b) >= 1,
    decreases b,
{
    if b >= 0x20_0000_0000_0000 {
        lemma_spacing_positive(b / 2);
    }
}

/// `bytes as f64`, as an integer (every double of that size is one).
fn f64_value(bytes: u64) -> (v: u128)
    ensures
        v == as_f64_value(bytes as nat),
        v <= 0x1_0000_0000_0000_1000,
{
    let b = bytes as u128;
    let mut p: u128 = 1;
    assert(b / 1 == b);
    while b / p >= 0x20_0000_0000_0000
        invariant
            b == bytes,
            1 <= p,
            p == 1 || p <= b,
            f64_spacing(b as nat) == p * f64_spacing((b / p) as nat),
            p == 1 || p * 0x10_0000_0000_0000 <= b,
        decreases b / p,
    {
        let ghost x = b / p;
        proof {
            vstd::arithmetic::div_mod::lemma_div_denominator(b as int, p as int, 2);
            assert(f64_spacing(x as nat) == 2 * f64_spacing((x / 2) as nat));
            assert(p * (2 * f64_spacing((x / 2) as nat)) == (p * 2) * f64_spacing((x / 2) as nat))
                by (nonlinear_arith);
            assert(p * 2 <= b && (p * 2) * 0x10_0000_0000_0000 <= b) by (nonlinear_arith)
                requires
                    b / p >= 0x20_0000_0000_0000,
                    p >= 1,
            ;
        }
        p = p * 2;
    }
    proof {
        lemma_spacing_positive(b as nat);
        assert(f64_spacing((b / p) as nat) == 1);
        assert(p * f64_spacing((b / p) as nat) == p * 1);
        assert(f64_spacing(b as nat) == p);
        assert(p <= 0x1000) by (nonlinear_arith)
            requires
                p == 1 || p * 0x10_0000_0000_0000 <= b,
                b <= 0xFFFF_FFFF_FFFF_FFFF,
        ;
    }
    let q = div_round_half_even_exec(b, p);
    proof {
        assert(q * p <= b + p) by (nonlinear_arith)
            requires
                q <= b / p + 1,
                p >= 1,
        ;
    }
    q * p
}

/// The text of `value / unit` with one decimal.
fn tenths(value: u128, unit: u128) -> (r: Vec<char>)
    requires
        value <= 0x1_0000_0000_0000_1000,
        unit >= 0x400,
    ensures
        r@ == tenths_text(value as nat, unit as nat),
{
    let tv = 10 * value;
    let t = div_round_half_even_exec(tv, unit);
    proof {
        assert(t / 10 <= 0xFFFF_FFFF_FFFF_FFFF) by (nonlinear_arith)
            requires
                t <= tv / unit + 1,
                tv == 10 * value,
                value <= 0x1_0000_0000_0000_1000,
                unit >= 0x400,
        ;
    }
    let mut r = decimal_chars((t / 10) as u64);
    r.push('.');
    let d = (t % 10) as u8;
    let c = (d + 0x30) as char;
    assert(c == digit_char((t % 10) as nat)) by {
        assert((d + 0x30) as u32 == d as u32 + 0x30);
    }
    r.push(c);
    r
}

/// The text of an amount of traffic, as the connection list shows it.
pub fn format_bytes(bytes: u64) -> (s: String)
    ensures
        s@ == bytes_text(bytes as nat),
{
    let mut out: Vec<char>;
    if bytes >= 0x4000_0000 {
        out = tenths(f64_value(bytes), 0x4000_0000);
        push_str(&mut out, " GB");
    } else if bytes >= 0x10_0000 {
        out = tenths(f64_value(bytes), 0x10_0000);
        push_str(&mut out, " MB");
    } else if bytes >= 0x400 {
        out = tenths(f64_value(bytes), 0x400);
        push_str(&mut out, " KB");
    } else {
        out = decimal_chars(bytes);
        push_str(&mut out, " B");
    }
    string_of(&out)
}

/// The text of a span of time in whole seconds: hours and minutes from one
/// hour on, whole minutes from one minute on, else seconds.
pub open spec fn remaining_text(seconds: nat) -> Seq<char> {
    if seconds >= 3600 {
        decimal(seconds / 3600) + "h "@ + decimal((seconds % 3600) / 60) + "m"@
    } else if seconds >= 60 {
        decimal(seconds / 60) + "m"@
    } else {
        decimal(seconds) + "s"@
    }
}

/// The text names the span it stands for: `"{h}h {m}m"` for a span of at
/// least an hour that lies in the `m`-th minute of its `h`-th hour, `"{m}m"`
/// for a shorter span of at least a minute that lies in its `m`-th minute,
/// and `"{s}s"` for less than a minute.
pub proof fn lemma_remaining_text_names_span(seconds: nat, h: nat, m: nat)
    ensures
        seconds >= 3600 && m < 60 && h * 3600 + m * 60 <= seconds < h * 3600 + (m + 1) * 60
            ==> remaining_text(seconds) == decimal(h) + "h "@ + decimal(m) + "m"@,
        60 <= seconds < 3600 && m * 60 <= seconds < (m + 1) * 60 ==> remaining_text(seconds)
            == decimal(m) + "m"@,
        seconds < 60 ==> remaining_text(seconds) == decimal(seconds) + "s"@,
{
    if seconds >= 3600 && m < 60 && h * 3600 + m * 60 <= seconds < h * 3600 + (m + 1) * 60 {
        assert(seconds / 3600 == h && (seconds % 3600) / 60 == m) by (nonlinear_arith)
            requires
                m < 60,
                h * 3600 + m * 60 <= seconds,
                seconds < h * 3600 + (m + 1) * 60,
        {
            assert(h * 3600 <= seconds < (h + 1) * 3600);
            assert(seconds / 3600 == h);
            assert(seconds % 3600 == seconds - h * 3600);
        }
    }
    if 60 <= seconds < 3600 && m * 60 <= seconds < (m + 1) * 60 {
        assert(seconds / 60 == m) by (nonlinear_arith)
            requires
                m * 60 <= seconds,
                seconds < (m + 1) * 60,
        ;
    }
}

/// The text of a span of time given in whole seconds.
pub fn format_remaining_secs(seconds: u64) -> (s: String)
    ensures
        s@ == remaining_text(seconds as nat),
{
    let mut out: Vec<char>;
    if seconds >= 3600 {
        out = decimal_chars(seconds / 3600);
        push_str(&mut out, "h ");
        let m = decimal_chars((seconds % 3600) / 60);
        push_all(&mut out, &m);
        push_str(&mut out, "m");
    } else if seconds >= 60 {
        out = decimal_chars(seconds / 60);
        push_str(&mut out, "m");
    } else {
        out = decimal_chars(seconds);
        push_str(&mut out, "s");
    }
    string_of(&out)
}

#[verifier::external_type_specification]
#[verifier::external_body]
pub struct ExSystemTime(std::time::SystemTime);

#[verifier::external_type_specification]
#[verifier::external_body]
pub struct ExSystemTimeError(std::time::SystemTimeError);

/// What `SystemTime::duration_since` gives for two times: how long after
/// `earlier` the time `later` is, or the error that it is before.
pub uninterp spec fn duration_between(
    later: std::time::SystemTime,
    earlier: std::time::SystemTime,
) -> Result<std::time::Duration, std::time::SystemTimeError>;

/// `SystemTime::duration_since`: the result is a function of the two times.
#[verifier::external_body]
fn duration_since(later: &std::time::SystemTime, earlier: &std::time::SystemTime) -> (r: Result<
    std::time::Duration,
    std::time::SystemTimeError,
>)
    ensures
        r == duration_between(*later, *earlier),
{
    later.duration_since(*earlier)
}

/// What `Duration::as_secs` gives: the whole seconds of a span.
pub uninterp spec fn whole_secs(span: std::time::Duration) -> u64;

/// `Duration::as_secs`: the result is a function of the span.
#[verifier::external_body]
fn whole_seconds(span: &std::time::Duration) -> (r: u64)
    ensures
        r == whole_secs(*span),
{
    span.as_secs()
}

/// The whole seconds from `now` until `deadline`; zero for a deadline that
/// is not after `now`.
pub open spec fn seconds_left(deadline: std::time::SystemTime, now: std::time::SystemTime) -> nat {
    match duration_between(deadline, now) {
        Ok(span) => whole_secs(span) as nat,
        Err(_) => 0,
    }
}

/// The time left until `deadline`, seen at `now`, in the form of
/// [`format_remaining_secs`]; a deadline that has passed counts as zero.
pub fn format_remaining(deadline: std::time::SystemTime, now: std::time::SystemTime) -> (s: String)
    ensures
        s@ == remaining_text(seconds_left(deadline, now)),
{
    let seconds = match duration_since(&deadline, &now) {
        Ok(span) => whole_seconds(&span),
        Err(_) => 0,
    };
    format_remaining_secs(seconds)
}

/// The colour class of a log line, read from its marker.
#[derive(Clone, Copy, Debug, PartialEq, Eq, Structural)]
pub enum LogTone {
    /// `[+]`: something succeeded.
    Success,
    /// `[-]`: something failed.
    Failure,
    /// `[*]`: something is under way.
    Progress,
    /// No marker.
    Plain,
}

pub open spec fn log_tone_of(line: Seq<char>) -> LogTone {
    if line.len() >= 3 && line.take(3) == "[+]"@ {
        LogTone::Success
    } else if line.len() >= 3 && line.take(3) == "[-]"@ {
        LogTone::Failure
    } else if line.len() >= 3 && line.take(3) == "[*]"@ {
        LogTone::Progress
    } else {
        LogTone::Plain
    }
}

/// The colour class of a log line.
pub fn log_tone(line: &str) -> (t: LogTone)
    ensures
        t == log_tone_of(line@),
{
    let s = crate::text::chars_of(line);
    proof {
        reveal_strlit("[+]");
        reveal_strlit("[-]");
        reveal_strlit("[*]");
    }
    if s.len() >= 3 && s[0] == '[' && s[2] == ']' {
        let c = s[1];
        assert(s@.take(3) =~= seq!['[', c, ']']);
        if c == '+' {
            assert(seq!['[', c, ']'] =~= "[+]"@);
            return LogTone::Success;
        } else if c == '-' {
            assert(seq!['[', c, ']'] =~= "[-]"@);
            return LogTone::Failure;
        } else if c == '*' {
            assert(seq!['[', c, ']'] =~= "[*]"@);
            return LogTone::Progress;
        }
        assert(s@.take(3)[1] != "[+]"@[1]);
        assert(s@.take(3)[1] != "[-]"@[1]);
        assert(s@.take(3)[1] != "[*]"@[1]);
    } else if s.len() >= 3 {
        assert(s@.take(3)[0] != "[+]"@[0] || s@.take(3)[2] != "[+]"@[2]);
        assert(s@.take(3)[0] != "[-]"@[0] || s@.take(3)[2] != "[-]"@[2]);
        assert(s@.take(3)[0] != "[*]"@[0] || s@.take(3)[2] != "[*]"@[2]);
    }
    LogTone::Plain
}

} // verus!
