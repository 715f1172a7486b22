//! Decimal text for unsigned integers: rendering, and parsing with the rules
//! (and the error kinds) of the standard library's `FromStr` for unsigned
//! and non-zero unsigned integers.
use vstd::prelude::*;

verus! {

/// Why a text is not an integer of the requested type.
#[derive(Clone, Copy, Debug, PartialEq, Eq, Structural)]
pub enum IntErrorKind {
    /// The text is empty.
    Empty,
    /// The text holds a character that is not a decimal digit.
    InvalidDigit,
    /// The number is larger than the type holds.
    PosOverflow,
    /// The number is zero where a non-zero value is required.
    Zero,
}

impl IntErrorKind {
    /// The message that the standard library's `ParseIntError` displays.
    pub fn message(&self) -> (m: String)
        ensures
            m@ == int_error_message(*self),
    {
        match self {
            IntErrorKind::Empty => String::from_str("cannot parse integer from empty string"),
            IntErrorKind::InvalidDigit => String::from_str("invalid digit found in string"),
            IntErrorKind::PosOverflow => String::from_str("number too large to fit in target type"),
            IntErrorKind::Zero => String::from_str("number would be zero for non-zero type"),
        }
    }
}

pub open spec fn int_error_message(kind: IntErrorKind) -> Seq<char> {
    match kind {
        IntErrorKind::Empty => "cannot parse integer from empty string"@,
        IntErrorKind::InvalidDigit => "invalid digit found in string"@,
        IntErrorKind::PosOverflow => "number too large to fit in target type"@,
        IntErrorKind::Zero => "number would be zero for non-zero type"@,
    }
}

pub open spec fn is_digit(c: char) -> bool {
    0x30 <= c as u32 <= 0x39
}

pub open spec fn digit_value(c: char) -> nat {
    (c as u32 - '0' as u32) as nat
}

pub open spec fn digit_char(d: nat) -> char {
    (d + '0' as u32) as char
}

/// The decimal text of `n`, without sign or leading zeros.
pub open spec fn decimal(n: nat) -> Seq<char>
    decreases n,
{
    if n < 10 {
        seq![digit_char(n)]
    } else {
        decimal(n / 10).push(digit_char(n % 10))
    }
}

/// The value of a run of characters read as decimal digits from the left,
/// failing at the first character that is not a digit or at the first digit
/// that takes the value past `max`.
pub open spec fn digits_value(ds: Seq<char>, max: nat) -> Result<nat, IntErrorKind>
    decreases ds.len(),
{
    if ds.len() == 0 {
        Ok(0)
    } else {
        match digits_value(ds.drop_last(), max) {
            Err(e) => Err(e),
            Ok(acc) => if !is_digit(ds.last()) {
                Err(IntErrorKind::InvalidDigit)
            } else if acc * 10 + digit_value(ds.last()) > max {
                Err(IntErrorKind::PosOverflow)
            } else {
                Ok(acc * 10 + digit_value(ds.last()))
            },
        }
    }
}

/// An unsigned integer no larger than `max` read from text: an optional
/// leading `+`, then decimal digits.
pub open spec fn parse_unsigned(s: Seq<char>, max: nat) -> Result<nat, IntErrorKind> {
    if s.len() == 0 {
        Err(IntErrorKind::Empty)
    } else if s.len() == 1 && (s[0] == '+' || s[0] == '-') {
        Err(IntErrorKind::InvalidDigit)
    } else if s[0] == '+' {
        digits_value(s.drop_first(), max)
    } else {
        digits_value(s, max)
    }
}

/// A non-zero unsigned integer no larger than `max` read from text.
pub open spec fn parse_nonzero(s: Seq<char>, max: nat) -> Result<nat, IntErrorKind> {
    match parse_unsigned(s, max) {
        Ok(v) => if v == 0 {
            Err(IntErrorKind::Zero)
        } else {
            Ok(v)
        },
        Err(e) => Err(e),
    }
}

/// Reads the characters `s[from..]` as decimal digits.
fn digits_value_exec(s: &Vec<char>, from: usize, max: u64) -> (r: Result<u64, IntErrorKind>)
    requires
        from <= s.len(),
    ensures
        match r {
            Ok(v) => digits_value(s@.skip(from as int), max as nat) == Ok::<nat, IntErrorKind>(
                v as nat,
            ),
            Err(e) => digits_value(s@.skip(from as int), max as nat) == Err::<nat, IntErrorKind>(
                e,
            ),
        },
{
    let ghost ds = s@.skip(from as int);
    let mut acc: u64 = 0;
    let mut i: usize = from;
    assert(ds.take(0) =~= Seq::<char>::empty());
    while i < s.len()
        invariant
            from <= i <= s.len(),
            ds == s@.skip(from as int),
            acc <= max,
            digits_value(ds.take(i - from), max as nat) == Ok::<nat, IntErrorKind>(acc as nat),
        decreases s.len() - i,
    {
        let c = s[i];
        let ghost pre = ds.take(i - from);
        let ghost next = ds.take(i + 1 - from);
        assert(next.drop_last() =~= pre);
        assert(next.last() == c);
        if !(0x30 <= c as u32 && c as u32 <= 0x39) {
            proof {
                lemma_digits_value_prefix_err(ds, (i + 1 - from) as int, max as nat);
            }
            return Err(IntErrorKind::InvalidDigit);
        }
        let d = (c as u32 - '0' as u32) as u64;
        if d > max || acc > (max - d) / 10 {
            assert(acc * 10 + d > max) by (nonlinear_arith)
                requires
                    d > max || acc > (max - d) / 10,
                    d <= 9,
            ;
            proof {
                lemma_digits_value_prefix_err(ds, (i + 1 - from) as int, max as nat);
            }
            return Err(IntErrorKind::PosOverflow);
        }
        assert(acc * 10 + d <= max) by (nonlinear_arith)
            requires
                acc <= (max - d) / 10,
                d <= max,
        ;
        acc = acc * 10 + d;
        i = i + 1;
    }
    assert(ds.take(i - from) =~= ds);
    Ok(acc)
}

/// Once reading a prefix fails, reading the whole run fails the same way.
proof fn lemma_digits_value_prefix_err(ds: Seq<char>, k: int, max: nat)
    requires
        0 <= k <= ds.len(),
        digits_value(ds.take(k), max) is Err,
    ensures
        digits_value(ds, max) == digits_value(ds.take(k), max),
    decreases ds.len() - k,
{
    if k < ds.len() {
        let next = ds.take(k + 1);
        assert(next.drop_last() =~= ds.take(k));
        lemma_digits_value_prefix_err(ds, k + 1, max);
    } else {
        assert(ds.take(k) =~= ds);
    }
}

/// Reads an unsigned integer no larger than `max`.
pub fn parse_unsigned_chars(s: &Vec<char>, max: u64) -> (r: Result<u64, IntErrorKind>)
    ensures
        match r {
            Ok(v) => parse_unsigned(s@, max as nat) == Ok::<nat, IntErrorKind>(v as nat),
            Err(e) => parse_unsigned(s@, max as nat) == Err::<nat, IntErrorKind>(e),
        },
{
    if s.len() == 0 {
        return Err(IntErrorKind::Empty);
    }
    if s.len() == 1 && (s[0] == '+' || s[0] == '-') {
        return Err(IntErrorKind::InvalidDigit);
    }
    if s[0] == '+' {
        assert(s@.skip(1) =~= s@.drop_first());
        digits_value_exec(s, 1, max)
    } else {
        assert(s@.skip(0) =~= s@);
        digits_value_exec(s, 0, max)
    }
}

/// Reads a non-zero unsigned integer no larger than `max`.
pub fn parse_nonzero_chars(s: &Vec<char>, max: u64) -> (r: Result<u64, IntErrorKind>)
    ensures
        match r {
            Ok(v) => parse_nonzero(s@, max as nat) == Ok::<nat, IntErrorKind>(v as nat),
            Err(e) => parse_nonzero(s@, max as nat) == Err::<nat, IntErrorKind>(e),
        },
{
    match parse_unsigned_chars(s, max) {
        Ok(v) => if v == 0 {
            Err(IntErrorKind::Zero)
        } else {
            Ok(v)
        },
        Err(e) => Err(e),
    }
}

/// The decimal text of `n`.
pub fn decimal_chars(n: u64) -> (r: Vec<char>)
    ensures
        r@ == decimal(n as nat),
    decreases n,
{
    if n < 10 {
        let c = ((n as u32) + ('0' as u32)) as u8 as char;
        assert(c == digit_char(n as nat)) by {
            assert(n as u32 + '0' as u32 <= 57);
        }
        let mut r: Vec<char> = Vec::new();
        r.push(c);
        assert(r@ =~= seq![digit_char(n as nat)]);
        r
    } else {
        let mut r = decimal_chars(n / 10);
        let d = n % 10;
        let c = ((d as u32) + ('0' as u32)) as u8 as char;
        assert(c == digit_char(d as nat)) by {
            assert(d as u32 + '0' as u32 <= 57);
        }
        r.push(c);
        r
    }
}

/// The decimal text of `n` as a `String`.
pub fn decimal_string(n: u64) -> (s: String)
    ensures
        s@ == decimal(n as nat),
{
    let v = decimal_chars(n);
    crate::text::string_of(&v)
}

proof fn lemma_digit_char(d: nat)
    requires
        d < 10,
    ensures
        digit_char(d) as u32 == d + 0x30,
        is_digit(digit_char(d)),
        digit_value(digit_char(d)) == d,
{
    assert(((d + 0x30) as char) as u32 == d + 0x30);
}

/// Every character of a decimal text is a digit, and it has at least one.
pub proof fn lemma_decimal_digits(n: nat)
    ensures
        decimal(n).len() >= 1,
        forall|i: int| 0 <= i < decimal(n).len() ==> is_digit(#[trigger] decimal(n)[i]),
        decimal(n)[0] != '+' && decimal(n)[0] != '-',
    decreases n,
{
    if n >= 10 {
        lemma_decimal_digits(n / 10);
        assert(decimal(n)[0] == decimal(n / 10)[0]);
    }
}

/// Reading the decimal text of a number gives the number back.
pub proof fn lemma_decimal_round_trip(n: nat, max: nat)
    requires
        n <= max,
    ensures
        digits_value(decimal(n), max) == Ok::<nat, IntErrorKind>(n),
        parse_unsigned(decimal(n), max) == Ok::<nat, IntErrorKind>(n),
    decreases n,
{
    lemma_decimal_digits(n);
    let s = decimal(n);
    if n < 10 {
        assert(s.drop_last() =~= Seq::<char>::empty());
        lemma_digit_char(n);
        assert(digits_value(s.drop_last(), max) == Ok::<nat, IntErrorKind>(0));
        assert(s.last() == digit_char(n));
    } else {
        lemma_digit_char(n % 10);
        lemma_decimal_round_trip(n / 10, max);
        assert(s.drop_last() =~= decimal(n / 10));
        assert(s.last() == digit_char(n % 10));
        assert((n / 10) * 10 + n % 10 == n) by (nonlinear_arith);
        assert(digits_value(s.drop_last(), max) == Ok::<nat, IntErrorKind>(n / 10));
    }
    assert(digits_value(s, max) == Ok::<nat, IntErrorKind>(n));
    assert(is_digit(s[0]));
}

/// A value read from digits never exceeds the limit it was read against.
proof fn lemma_digits_value_at_most(ds: Seq<char>, max: nat)
    ensures
        digits_value(ds, max) matches Ok(v) ==> v <= max,
    decreases ds.len(),
{
    if ds.len() > 0 {
        lemma_digits_value_at_most(ds.drop_last(), max);
    }
}

/// Reading stays within its limit: what is read never exceeds `max`, and
/// the decimal text of a number above `max` is refused as too large.
pub proof fn lemma_parse_unsigned_limit(s: Seq<char>, max: nat, n: nat)
    ensures
        parse_unsigned(s, max) matches Ok(v) ==> v <= max,
        n > max ==> parse_unsigned(decimal(n), max) == Err::<nat, IntErrorKind>(
            IntErrorKind::PosOverflow,
        ),
{
    lemma_digits_value_at_most(s, max);
    if s.len() > 0 {
        lemma_digits_value_at_most(s.drop_first(), max);
    }
    if n > max {
        lemma_decimal_too_large(n, max);
        lemma_decimal_digits(n);
        if decimal(n).len() == 1 {
            assert(is_digit(decimal(n)[0]));
        }
    }
}

proof fn lemma_decimal_too_large(n: nat, max: nat)
    requires
        n > max,
    ensures
        digits_value(decimal(n), max) == Err::<nat, IntErrorKind>(IntErrorKind::PosOverflow),
    decreases n,
{
    lemma_decimal_digits(n);
    let s = decimal(n);
    if n < 10 {
        assert(s.drop_last() =~= Seq::<char>::empty());
        lemma_digit_char(n);
        assert(digits_value(s.drop_last(), max) == Ok::<nat, IntErrorKind>(0));
        assert(s.last() == digit_char(n));
    } else {
        lemma_digit_char(n % 10);
        assert(s.drop_last() =~= decimal(n / 10));
        assert(s.last() == digit_char(n % 10));
        assert((n / 10) * 10 + n % 10 == n) by (nonlinear_arith);
        if n / 10 > max {
            lemma_decimal_too_large(n / 10, max);
        } else {
            lemma_decimal_round_trip(n / 10, max);
        }
    }
}

} // verus!
