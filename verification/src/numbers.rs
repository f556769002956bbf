//! Decimal formatting and parsing of unsigned integers.

use vstd::prelude::*;

verus! {

broadcast use vstd::seq_lib::group_seq_properties;

/// The ASCII digit for `d < 10`.
pub open spec fn digit_char(d: nat) -> char {
    ((d + 48) as u32) as char
}

/// The value of an ASCII digit.
pub open spec fn digit_value(c: char) -> nat {
    ((c as u32) - 48) as nat
}

/// All characters are ASCII digits.
pub open spec fn all_digits(s: Seq<char>) -> bool {
    forall|i: int| 0 <= i < s.len() ==> '0' <= #[trigger] s[i] && s[i] <= '9'
}

/// The decimal rendering of `n` (`Display` for unsigned integers).
pub open spec fn decimal(n: nat) -> Seq<char>
    decreases n,
{
    if n < 10 {
        seq![digit_char(n)]
    } else {
        decimal(n / 10).push(digit_char(n % 10))
    }
}

/// `decimal(n)` left-padded with `0` to at least `width` characters (`{:0width}`).
pub open spec fn zero_padded(n: nat, width: nat) -> Seq<char> {
    let d = decimal(n);
    if d.len() >= width {
        d
    } else {
        Seq::new((width - d.len()) as nat, |i: int| '0') + d
    }
}

/// The number that a string of digits denotes.
pub open spec fn digits_value(s: Seq<char>) -> nat
    decreases s.len(),
{
    if s.len() == 0 {
        0
    } else {
        digits_value(s.drop_last()) * 10 + digit_value(s.last())
    }
}

/// `str::parse` for an unsigned integer type whose maximum is `max`: an
/// optional `+`, then at least one digit, with a value that fits.
pub open spec fn parse_unsigned(s: Seq<char>, max: nat) -> Option<nat> {
    let body = if s.len() > 0 && s[0] == '+' {
        s.drop_first()
    } else {
        s
    };
    if body.len() > 0 && all_digits(body) && digits_value(body) <= max {
        Some(digits_value(body))
    } else {
        None
    }
}

/// A digit's value is the number it was made from.
pub proof fn lemma_digit_round_trip(d: nat)
    requires
        d < 10,
    ensures
        digit_value(digit_char(d)) == d,
        '0' <= digit_char(d) <= '9',
{
}

/// A decimal rendering is made of digits and denotes its number.
pub proof fn lemma_decimal_value(n: nat)
    ensures
        all_digits(decimal(n)),
        digits_value(decimal(n)) == n,
        decimal(n).len() > 0,
    decreases n,
{
    if n < 10 {
        lemma_digit_round_trip(n);
        let d = seq![digit_char(n)];
        assert(decimal(n) == d);
        assert(d.drop_last() =~= Seq::<char>::empty());
        assert(digits_value(d) == digits_value(d.drop_last()) * 10 + digit_value(d.last()));
    } else {
        lemma_decimal_value(n / 10);
        lemma_digit_round_trip(n % 10);
        let d = decimal(n / 10).push(digit_char(n % 10));
        assert(d.drop_last() =~= decimal(n / 10));
        assert(digits_value(d) == digits_value(decimal(n / 10)) * 10 + digit_value(digit_char(n % 10)));
        assert((n / 10) * 10 + n % 10 == n) by (nonlinear_arith);
        assert(decimal(n) == d);
        assert forall|i: int| 0 <= i < d.len() implies '0' <= #[trigger] d[i] && d[i] <= '9' by {
            if i < d.len() - 1 {
                assert(d[i] == decimal(n / 10)[i]);
            }
        }
    }
}

/// Leading zeros do not change the number that digits denote.
proof fn lemma_leading_zeros_value(z: Seq<char>, d: Seq<char>)
    requires
        forall|i: int| 0 <= i < z.len() ==> #[trigger] z[i] == '0',
    ensures
        digits_value(z + d) == digits_value(d),
    decreases z.len() + d.len(),
{
    if d.len() > 0 {
        lemma_leading_zeros_value(z, d.drop_last());
        assert((z + d).drop_last() =~= z + d.drop_last());
        assert((z + d).last() == d.last());
    } else if z.len() > 0 {
        lemma_leading_zeros_value(z.drop_last(), d);
        assert((z + d) =~= z);
        assert(z.drop_last() + d =~= z.drop_last());
        assert(z.last() == '0');
        assert(digit_value('0') == 0);
    } else {
        assert(z + d =~= d);
    }
}

/// A zero-padded rendering denotes its number, so different numbers render
/// differently.
pub proof fn lemma_zero_padded_value(n: nat, width: nat)
    ensures
        digits_value(zero_padded(n, width)) == n,
{
    lemma_decimal_value(n);
    let d = decimal(n);
    if d.len() < width {
        let z = Seq::new((width - d.len()) as nat, |i: int| '0');
        lemma_leading_zeros_value(z, d);
    }
}

/// The digit character of a value below ten.
fn digit_exec(d: u64) -> (c: char)
    requires
        d < 10,
    ensures
        c == digit_char(d as nat),
{
    let b: u8 = (d as u8) + 48;
    b as char
}

/// Decimal rendering of an unsigned 64-bit value.
pub fn decimal_exec(n: u64) -> (r: Vec<char>)
    ensures
        r@ == decimal(n as nat),
    decreases n,
{
    if n < 10 {
        let mut v: Vec<char> = Vec::new();
        v.push(digit_exec(n));
        assert(v@ =~= seq![digit_char(n as nat)]);
        v
    } else {
        let mut v = decimal_exec(n / 10);
        v.push(digit_exec(n % 10));
        v
    }
}

/// Decimal rendering of a 128-bit value as a string.
pub fn decimal_string_wide(n: u128) -> (r: String)
    ensures
        r@ == decimal(n as nat),
    decreases n,
{
    if n < 10 {
        let mut v: Vec<char> = Vec::new();
        v.push(digit_exec(n as u64));
        assert(v@ =~= seq![digit_char(n as nat)]);
        crate::text::string_of(&v)
    } else {
        let mut s = decimal_string_wide(n / 10);
        let mut v: Vec<char> = Vec::new();
        v.push(digit_exec((n % 10) as u64));
        s.append(crate::text::string_of(&v).as_str());
        assert(v@ =~= seq![digit_char((n % 10) as nat)]);
        s
    }
}

/// Decimal rendering as a string.
pub fn decimal_string(n: u64) -> (r: String)
    ensures
        r@ == decimal(n as nat),
{
    crate::text::string_of(&decimal_exec(n))
}

/// Decimal rendering zero-padded to `width` characters.
pub fn zero_padded_exec(n: u64, width: usize) -> (r: Vec<char>)
    ensures
        r@ == zero_padded(n as nat, width as nat),
{
    let d = decimal_exec(n);
    if d.len() >= width {
        return d;
    }
    let mut r: Vec<char> = Vec::new();
    let pad = width - d.len();
    let mut i: usize = 0;
    while i < pad
        invariant
            i <= pad,
            r@ == Seq::new(i as nat, |j: int| '0'),
        decreases pad - i,
    {
        r.push('0');
        assert(r@ =~= Seq::new((i + 1) as nat, |j: int| '0'));
        i += 1;
    }
    crate::text::push_all(&mut r, &d);
    r
}

/// `str::parse::<u64>`.
pub fn parse_u64(s: &Vec<char>) -> (r: Option<u64>)
    ensures
        match r {
            Some(v) => parse_unsigned(s@, u64::MAX as nat) == Some(v as nat),
            None => parse_unsigned(s@, u64::MAX as nat) is None,
        },
{
    let start: usize = if s.len() > 0 && s[0] == '+' {
        1
    } else {
        0
    };
    let ghost body = if s@.len() > 0 && s@[0] == '+' {
        s@.drop_first()
    } else {
        s@
    };
    assert(body =~= s@.subrange(start as int, s@.len() as int));
    if start >= s.len() {
        return None;
    }
    let mut acc: u64 = 0;
    let mut i: usize = start;
    let mut overflow = false;
    while i < s.len()
        invariant
            start <= i <= s.len(),
            body == s@.subrange(start as int, s@.len() as int),
            body == (if s@.len() > 0 && s@[0] == '+' { s@.drop_first() } else { s@ }),
            all_digits(body.take(i - start)),
            !overflow ==> acc as nat == digits_value(body.take(i - start)),
            overflow ==> digits_value(body.take(i - start)) > u64::MAX,
        decreases s.len() - i,
    {
        let c = s[i];
        if !('0' <= c && c <= '9') {
            assert(body[i - start] == c);
            assert(!all_digits(body));
            return None;
        }
        let ghost prev = body.take(i - start);
        assert(body.take(i + 1 - start).drop_last() =~= prev);
        assert(body.take(i + 1 - start).last() == c);
        assert(all_digits(body.take(i + 1 - start))) by {
            assert forall|k: int| 0 <= k < body.take(i + 1 - start).len() implies '0' <= #[trigger] body.take(i + 1 - start)[k] && body.take(i + 1 - start)[k] <= '9' by {
                if k < i - start {
                    assert(body.take(i + 1 - start)[k] == prev[k]);
                }
            }
        }
        let d: u64 = (c as u32 - 48) as u64;
        if !overflow {
            match acc.checked_mul(10) {
                Some(m) => match m.checked_add(d) {
                    Some(v) => {
                        acc = v;
                    },
                    None => {
                        overflow = true;
                    },
                },
                None => {
                    overflow = true;
                    assert(digits_value(prev) * 10 + digit_value(c) > u64::MAX) by (nonlinear_arith)
                        requires
                            digits_value(prev) * 10 > u64::MAX,
                    ;
                },
            }
        } else {
            assert(digits_value(prev) * 10 + digit_value(c) > u64::MAX) by (nonlinear_arith)
                requires
                    digits_value(prev) > u64::MAX,
            ;
        }
        i += 1;
    }
    assert(body.take(s.len() - start) =~= body);
    if overflow {
        None
    } else {
        Some(acc)
    }
}

/// `str::parse::<u16>`.
pub fn parse_u16(s: &Vec<char>) -> (r: Option<u16>)
    ensures
        match r {
            Some(v) => parse_unsigned(s@, u16::MAX as nat) == Some(v as nat),
            None => parse_unsigned(s@, u16::MAX as nat) is None,
        },
{
    match parse_u64(s) {
        Some(v) => if v <= 65535 {
            Some(v as u16)
        } else {
            None
        },
        None => {
            proof {
                let body = if s@.len() > 0 && s@[0] == '+' {
                    s@.drop_first()
                } else {
                    s@
                };
                assert(!(body.len() > 0 && all_digits(body) && digits_value(body) <= u16::MAX));
            }
            None
        },
    }
}


/// Why `str::parse` rejected a number (`std::num::IntErrorKind`).
#[derive(Debug, Clone, Copy, PartialEq, Eq, Structural)]
pub enum IntParseError {
    /// The text is empty.
    Empty,
    /// A character is not a digit, or a sign stands alone.
    InvalidDigit,
    /// The value is too large for the type.
    PosOverflow,
}

/// Scans digits left to right from `acc`, failing at the first character
/// that is no digit or that takes the value above `max`.
pub open spec fn scan_digits(d: Seq<char>, acc: nat, max: nat) -> Result<nat, IntParseError>
    decreases d.len(),
{
    if d.len() == 0 {
        Ok(acc)
    } else if !('0' <= d[0] && d[0] <= '9') {
        Err(IntParseError::InvalidDigit)
    } else if acc * 10 + digit_value(d[0]) > max {
        Err(IntParseError::PosOverflow)
    } else {
        scan_digits(d.drop_first(), acc * 10 + digit_value(d[0]), max)
    }
}

/// `str::parse` for an unsigned type with maximum `max`, with the reason
/// for a failure: an optional `+`, then digits.
pub open spec fn parse_int(s: Seq<char>, max: nat) -> Result<nat, IntParseError> {
    if s.len() == 0 {
        Err(IntParseError::Empty)
    } else if (s[0] == '+' || s[0] == '-') && s.len() == 1 {
        Err(IntParseError::InvalidDigit)
    } else if s[0] == '+' {
        scan_digits(s.drop_first(), 0, max)
    } else {
        scan_digits(s, 0, max)
    }
}

/// The message of a `ParseIntError`.
pub open spec fn int_error_message(e: IntParseError) -> Seq<char> {
    match e {
        IntParseError::Empty => "cannot parse integer from empty string"@,
        IntParseError::InvalidDigit => "invalid digit found in string"@,
        IntParseError::PosOverflow => "number too large to fit in target type"@,
    }
}

/// The message of a `ParseIntError`.
pub fn int_error_text(e: IntParseError) -> (r: &'static str)
    ensures
        r@ == int_error_message(e),
{
    match e {
        IntParseError::Empty => "cannot parse integer from empty string",
        IntParseError::InvalidDigit => "invalid digit found in string",
        IntParseError::PosOverflow => "number too large to fit in target type",
    }
}

/// `str::parse::<u16>` with the reason for a failure.
pub fn parse_u16_checked(s: &Vec<char>) -> (r: Result<u16, IntParseError>)
    ensures
        match r {
            Ok(v) => parse_int(s@, u16::MAX as nat) == Ok::<nat, IntParseError>(v as nat),
            Err(e) => parse_int(s@, u16::MAX as nat) == Err::<nat, IntParseError>(e),
        },
{
    if s.len() == 0 {
        return Err(IntParseError::Empty);
    }
    if (s[0] == '+' || s[0] == '-') && s.len() == 1 {
        return Err(IntParseError::InvalidDigit);
    }
    let start: usize = if s[0] == '+' { 1 } else { 0 };
    let ghost d = if s@[0] == '+' { s@.drop_first() } else { s@ };
    assert(d =~= s@.subrange(start as int, s@.len() as int));
    let mut acc: u32 = 0;
    let mut i: usize = start;
    while i < s.len()
        invariant
            start <= i <= s@.len(),
            acc <= u16::MAX,
            d == s@.subrange(start as int, s@.len() as int),
            parse_int(s@, u16::MAX as nat) == scan_digits(s@.subrange(i as int, s@.len() as int), acc as nat, u16::MAX as nat),
        decreases s@.len() - i,
    {
        let c = s[i];
        assert(s@.subrange(i as int, s@.len() as int)[0] == c);
        assert(s@.subrange(i as int, s@.len() as int).drop_first() =~= s@.subrange(i + 1, s@.len() as int));
        if !('0' <= c && c <= '9') {
            return Err(IntParseError::InvalidDigit);
        }
        let digit: u32 = (c as u32) - 48;
        let next: u32 = acc * 10 + digit;
        if next > 65535 {
            return Err(IntParseError::PosOverflow);
        }
        acc = next;
        i += 1;
    }
    Ok(acc as u16)
}

} // verus!
