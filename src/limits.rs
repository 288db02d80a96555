//! Resource limits as the operator writes them: a memory size with an
//! optional unit suffix, and a fractional number of CPU cores.
use vstd::prelude::*;
use crate::text::{trim, trim_blanks};

verus! {

pub const KIB: u64 = 1024;
pub const MIB: u64 = 1048576;
pub const GIB: u64 = 1073741824;

/// Runtime CPU units per core.
pub const NANOS_PER_CPU: u64 = 1000000000;

/// The most fractional digits a memory size may have.
pub const MAX_MEMORY_FRACTION_DIGITS: usize = 9;

pub open spec fn is_digit(c: char) -> bool {
    '0' <= c && c <= '9'
}

pub open spec fn digit_val(c: char) -> nat {
    (c as u32 - '0' as u32) as nat
}

pub open spec fn all_digits(s: Seq<char>) -> bool {
    forall|i: int| 0 <= i < s.len() ==> is_digit(#[trigger] s[i])
}

/// The number that a string of decimal digits denotes.
pub open spec fn digits_value(s: Seq<char>) -> nat
    decreases s.len(),
{
    if s.len() == 0 {
        0
    } else {
        digits_value(s.drop_last()) * 10 + digit_val(s.last())
    }
}

pub open spec fn pow10(n: nat) -> nat
    decreases n,
{
    if n == 0 {
        1
    } else {
        10 * pow10((n - 1) as nat)
    }
}

/// Index of the first `c` in `s`, or `s.len()` when there is none.
pub open spec fn index_of(s: Seq<char>, c: char) -> int
    decreases s.len(),
{
    if s.len() == 0 {
        0
    } else if s[0] == c {
        0
    } else {
        1 + index_of(s.drop_first(), c)
    }
}

/// The digits before the decimal point.
pub open spec fn int_part(s: Seq<char>) -> Seq<char> {
    s.subrange(0, index_of(s, '.'))
}

/// The digits after the decimal point (empty when there is no point).
pub open spec fn frac_part(s: Seq<char>) -> Seq<char> {
    if index_of(s, '.') < s.len() {
        s.subrange(index_of(s, '.') + 1, s.len() as int)
    } else {
        Seq::empty()
    }
}

/// An unsigned decimal number: digits, at most one point, at least one digit.
pub open spec fn is_decimal(s: Seq<char>) -> bool {
    &&& all_digits(int_part(s))
    &&& all_digits(frac_part(s))
    &&& int_part(s).len() + frac_part(s).len() > 0
}

/// `floor(x * mult)` for the decimal number `x` that `s` writes.
pub open spec fn scaled_floor(s: Seq<char>, mult: nat) -> nat {
    digits_value(int_part(s)) * mult + digits_value(frac_part(s)) * mult / pow10(
        frac_part(s).len(),
    )
}

/// A signed decimal integer with an optional `+` or `-`, when it fits in `i64`.
pub open spec fn integer_value(s: Seq<char>) -> Option<int> {
    let signed = s.len() > 0 && (s[0] == '+' || s[0] == '-');
    let digits = if signed {
        s.drop_first()
    } else {
        s
    };
    let v: int = if signed && s[0] == '-' {
        -digits_value(digits)
    } else {
        digits_value(digits) as int
    };
    if digits.len() > 0 && all_digits(digits) && i64::MIN <= v <= i64::MAX {
        Some(v)
    } else {
        None
    }
}

pub open spec fn is_letter(c: char, lower: char, upper: char) -> bool {
    c == lower || c == upper
}

/// Splits a trimmed memory size into its number and the unit it multiplies by;
/// the unit is 1 when there is no suffix.
pub open spec fn memory_split(t: Seq<char>) -> (Seq<char>, nat) {
    let n = t.len() as int;
    if n >= 2 && is_letter(t[n - 1], 'b', 'B') && is_letter(t[n - 2], 'g', 'G') {
        (t.subrange(0, n - 2), GIB as nat)
    } else if n >= 1 && is_letter(t[n - 1], 'g', 'G') {
        (t.subrange(0, n - 1), GIB as nat)
    } else if n >= 2 && is_letter(t[n - 1], 'b', 'B') && is_letter(t[n - 2], 'm', 'M') {
        (t.subrange(0, n - 2), MIB as nat)
    } else if n >= 1 && is_letter(t[n - 1], 'm', 'M') {
        (t.subrange(0, n - 1), MIB as nat)
    } else if n >= 2 && is_letter(t[n - 1], 'b', 'B') && is_letter(t[n - 2], 'k', 'K') {
        (t.subrange(0, n - 2), KIB as nat)
    } else if n >= 1 && is_letter(t[n - 1], 'k', 'K') {
        (t.subrange(0, n - 1), KIB as nat)
    } else {
        (t, 1)
    }
}

/// The byte count that a memory size denotes, if it is well formed and fits in `i64`.
/// Surrounding blanks are ignored; `k`/`kb`, `m`/`mb`, `g`/`gb` (in either case)
/// multiply by a power of 1024 and take a decimal number with at most nine
/// fractional digits, rounded down to whole bytes; without a suffix the size is
/// a plain integer of bytes.
pub open spec fn memory_bytes(s: Seq<char>) -> Option<int> {
    let (num, mult) = memory_split(trim_blanks(s));
    if mult == 1 {
        integer_value(num)
    } else if is_decimal(num) && frac_part(num).len() <= MAX_MEMORY_FRACTION_DIGITS
        && scaled_floor(num, mult) <= i64::MAX {
        Some(scaled_floor(num, mult) as int)
    } else {
        None
    }
}

/// The runtime CPU units for a core count written as a decimal number,
/// if it is well formed (at most nine fractional digits, so the result is
/// exact) and fits in `i64`.
pub open spec fn cpu_nanos(s: Seq<char>) -> Option<int> {
    if is_decimal(s) && frac_part(s).len() <= 9 && scaled_floor(s, NANOS_PER_CPU as nat)
        <= i64::MAX {
        Some(scaled_floor(s, NANOS_PER_CPU as nat) as int)
    } else {
        None
    }
}

/// A resource limit that could not be read.
#[derive(Debug, Clone, PartialEq, Eq)]
pub enum ConfigError {
    /// The memory size is not a number with a known unit, or does not fit.
    InvalidMemory(String),
}

proof fn lemma_digits_push(s: Seq<char>, i: int)
    requires
        0 <= i < s.len(),
    ensures
        digits_value(s.subrange(0, i + 1)) == digits_value(s.subrange(0, i)) * 10 + digit_val(
            s[i],
        ),
{
    assert(s.subrange(0, i + 1).drop_last() =~= s.subrange(0, i));
}

proof fn lemma_digits_bound(s: Seq<char>)
    requires
        all_digits(s),
    ensures
        digits_value(s) < pow10(s.len()),
    decreases s.len(),
{
    if s.len() > 0 {
        let p = s.drop_last();
        assert(all_digits(p)) by {
            assert forall|i: int| 0 <= i < p.len() implies is_digit(#[trigger] p[i]) by {
                assert(p[i] == s[i]);
            }
        }
        lemma_digits_bound(p);
        let a = digits_value(p);
        let b = pow10(p.len());
        let d = digit_val(s.last());
        assert(is_digit(s[s.len() - 1]));
        assert(d <= 9);
        assert(a * 10 + d < b * 10) by (nonlinear_arith)
            requires
                a < b,
                d <= 9,
        ;
    }
}

pub proof fn lemma_index_of(s: Seq<char>, c: char, i: int)
    requires
        0 <= i <= s.len(),
        forall|j: int| 0 <= j < i ==> s[j] != c,
        i == s.len() || s[i] == c,
    ensures
        index_of(s, c) == i,
    decreases i,
{
    if i > 0 {
        lemma_index_of(s.drop_first(), c, i - 1);
    }
}

/// Reads `s` as decimal digits: `None` when some character is not a digit,
/// else the value, saturated at `u64::MAX`.
fn read_digits(s: &str) -> (r: Option<u64>)
    ensures
        r.is_some() == all_digits(s@),
        r.is_some() ==> r.unwrap() as nat == if digits_value(s@) < u64::MAX as nat {
            digits_value(s@)
        } else {
            u64::MAX as nat
        },
{
    let n = s.unicode_len();
    let mut v: u64 = 0;
    let mut i: usize = 0;
    assert(s@.subrange(0, 0) =~= Seq::<char>::empty());
    while i < n
        invariant
            n == s@.len(),
            i <= n,
            all_digits(s@.subrange(0, i as int)),
            v as nat == if digits_value(s@.subrange(0, i as int)) < u64::MAX as nat {
                digits_value(s@.subrange(0, i as int))
            } else {
                u64::MAX as nat
            },
        decreases n - i,
    {
        let c = s.get_char(i);
        if !('0' <= c && c <= '9') {
            assert(!is_digit(s@[i as int]));
            return None;
        }
        let d: u64 = (c as u32 - '0' as u32) as u64;
        proof {
            lemma_digits_push(s@, i as int);
            assert(all_digits(s@.subrange(0, i + 1))) by {
                assert forall|j: int| 0 <= j < i + 1 implies is_digit(
                    #[trigger] s@.subrange(0, i + 1)[j],
                ) by {
                    if j < i {
                        assert(s@.subrange(0, i + 1)[j] == s@.subrange(0, i as int)[j]);
                    }
                }
            }
        }
        let ghost old_true = digits_value(s@.subrange(0, i as int));
        if v > (u64::MAX - d) / 10 {
            proof {
                let m = u64::MAX as int;
                assert(v * 10 + d > m) by (nonlinear_arith)
                    requires
                        v > (m - d) / 10,
                        0 <= d <= 9,
                ;
                assert(old_true >= v);
                assert(old_true * 10 + d >= v * 10 + d) by (nonlinear_arith)
                    requires
                        old_true >= v,
                ;
            }
            v = u64::MAX;
        } else {
            proof {
                let m = u64::MAX as int;
                assert(v * 10 + d <= m) by (nonlinear_arith)
                    requires
                        v <= (m - d) / 10,
                        0 <= d <= 9,
                ;
                assert(v < m);
                assert(old_true == v);
            }
            v = v * 10 + d;
        }
        i = i + 1;
    }
    assert(s@.subrange(0, n as int) =~= s@);
    Some(v)
}

/// Index of the first `c` in `s`, or its length.
fn find_char(s: &str, c: char) -> (r: usize)
    ensures
        r as int == index_of(s@, c),
        r <= s@.len(),
{
    let n = s.unicode_len();
    let mut i: usize = 0;
    while i < n && s.get_char(i) != c
        invariant
            n == s@.len(),
            i <= n,
            forall|j: int| 0 <= j < i ==> s@[j] != c,
        decreases n - i,
    {
        i = i + 1;
    }
    proof {
        lemma_index_of(s@, c, i as int);
    }
    i
}

fn pow10_small(n: usize) -> (r: u64)
    requires
        n <= 9,
    ensures
        r as nat == pow10(n as nat),
        r <= 1000000000,
{
    proof {
        reveal_with_fuel(pow10, 10);
    }
    if n == 0 {
        1
    } else if n == 1 {
        10
    } else if n == 2 {
        100
    } else if n == 3 {
        1000
    } else if n == 4 {
        10000
    } else if n == 5 {
        100000
    } else if n == 6 {
        1000000
    } else if n == 7 {
        10000000
    } else if n == 8 {
        100000000
    } else {
        1000000000
    }
}

/// `floor(x * mult)` for the decimal `x` that `s` writes, when `s` is a decimal
/// with at most nine fractional digits and the result fits in `i64`.
fn read_scaled(s: &str, mult: u64) -> (r: Option<i64>)
    requires
        1 <= mult <= GIB,
    ensures
        r.is_some() == (is_decimal(s@) && frac_part(s@).len() <= 9 && scaled_floor(s@, mult as nat)
            <= i64::MAX),
        r.is_some() ==> r.unwrap() as int == scaled_floor(s@, mult as nat),
{
    let n = s.unicode_len();
    let dot = find_char(s, '.');
    let int_s = s.substring_char(0, dot);
    let frac_s = if dot < n {
        s.substring_char(dot + 1, n)
    } else {
        ""
    };
    proof {
        reveal_strlit("");
        assert(int_s@ == int_part(s@));
        assert(frac_s@ =~= frac_part(s@));
    }
    let fl = frac_s.unicode_len();
    let iv = read_digits(int_s);
    let fv = read_digits(frac_s);
    if iv.is_none() || fv.is_none() || int_s.unicode_len() + fl == 0 || fl > 9 {
        return None;
    }
    let iv = iv.unwrap();
    let fv = fv.unwrap();
    let ghost iv_true = digits_value(int_part(s@));
    let ghost fv_true = digits_value(frac_part(s@));
    proof {
        lemma_digits_bound(frac_part(s@));
    }
    let p = pow10_small(fl);
    assert(fv_true < u64::MAX) by {
        assert(pow10(fl as nat) <= 1000000000);
    }
    assert(fv as nat * mult as nat <= (u64::MAX as nat) * (GIB as nat)) by (nonlinear_arith)
        requires
            fv <= u64::MAX,
            mult <= GIB,
    ;
    let frac_scaled: u128 = (fv as u128) * (mult as u128) / (p as u128);
    assert(frac_scaled as nat == fv_true * (mult as nat) / pow10(fl as nat));
    if iv == u64::MAX {
        proof {
            let m = mult as nat;
            assert(iv_true * m >= u64::MAX as nat) by (nonlinear_arith)
                requires
                    iv_true >= u64::MAX as nat,
                    m >= 1,
            ;
        }
        return None;
    }
    assert(iv as nat == iv_true);
    assert((iv as nat) * (mult as nat) <= (u64::MAX as nat) * (GIB as nat)) by (nonlinear_arith)
        requires
            iv <= u64::MAX,
            mult <= GIB,
    ;
    assert(frac_scaled <= fv as nat * mult as nat) by (nonlinear_arith)
        requires
            frac_scaled as nat == fv as nat * mult as nat / p as nat,
            p >= 1,
    ;
    let total: u128 = (iv as u128) * (mult as u128) + frac_scaled;
    if total > i64::MAX as u128 {
        None
    } else {
        Some(total as i64)
    }
}

/// Reads a plain integer with an optional sign, when it fits in `i64`.
fn read_integer(s: &str) -> (r: Option<i64>)
    ensures
        r.is_some() == integer_value(s@).is_some(),
        r.is_some() ==> r.unwrap() as int == integer_value(s@).unwrap(),
{
    let n = s.unicode_len();
    let signed = n > 0 && (s.get_char(0) == '+' || s.get_char(0) == '-');
    let negative = signed && s.get_char(0) == '-';
    let digits = if signed {
        s.substring_char(1, n)
    } else {
        s
    };
    proof {
        if signed {
            assert(digits@ =~= s@.drop_first());
        }
    }
    let v = read_digits(digits);
    if digits.unicode_len() == 0 || v.is_none() {
        return None;
    }
    let v = v.unwrap();
    if negative {
        if v > 9223372036854775808 {
            None
        } else if v == 9223372036854775808 {
            Some(i64::MIN)
        } else {
            Some(-(v as i64))
        }
    } else {
        if v > i64::MAX as u64 {
            None
        } else {
            Some(v as i64)
        }
    }
}

fn letter_at(s: &str, i: usize, lower: char, upper: char) -> (r: bool)
    requires
        i < s@.len(),
    ensures
        r == is_letter(s@[i as int], lower, upper),
{
    let c = s.get_char(i);
    c == lower || c == upper
}

/// The byte count for a memory size such as `256m`, `2gb` or `1024`.
pub fn parse_memory_string(memory_str: &str) -> (r: Result<i64, ConfigError>)
    ensures
        r.is_ok() == memory_bytes(memory_str@).is_some(),
        r.is_ok() ==> r.unwrap() as int == memory_bytes(memory_str@).unwrap(),
        r matches Err(ConfigError::InvalidMemory(t)) ==> t@ == trim_blanks(memory_str@),
{
    let t = trim(memory_str);
    let ts = t.as_str();
    let n = ts.unicode_len();
    let (cut, mult): (usize, u64) = if n >= 2 && letter_at(ts, n - 1, 'b', 'B') && letter_at(
        ts,
        n - 2,
        'g',
        'G',
    ) {
        (n - 2, GIB)
    } else if n >= 1 && letter_at(ts, n - 1, 'g', 'G') {
        (n - 1, GIB)
    } else if n >= 2 && letter_at(ts, n - 1, 'b', 'B') && letter_at(ts, n - 2, 'm', 'M') {
        (n - 2, MIB)
    } else if n >= 1 && letter_at(ts, n - 1, 'm', 'M') {
        (n - 1, MIB)
    } else if n >= 2 && letter_at(ts, n - 1, 'b', 'B') && letter_at(ts, n - 2, 'k', 'K') {
        (n - 2, KIB)
    } else if n >= 1 && letter_at(ts, n - 1, 'k', 'K') {
        (n - 1, KIB)
    } else {
        (n, 1)
    };
    let num = ts.substring_char(0, cut);
    proof {
        let (sn, sm) = memory_split(trim_blanks(memory_str@));
        assert(num@ =~= sn);
        assert(mult as nat == sm);
    }
    let v = if mult == 1 {
        read_integer(num)
    } else {
        read_scaled(num, mult)
    };
    match v {
        Some(b) => Ok(b),
        None => Err(ConfigError::InvalidMemory(t)),
    }
}

/// The runtime CPU units for a core count such as `0.5`; `None` when the
/// text is not a decimal number (such a limit is left out, not refused).
pub fn parse_cpus(cpus: &str) -> (r: Option<i64>)
    ensures
        r.is_some() == cpu_nanos(cpus@).is_some(),
        r.is_some() ==> r.unwrap() as int == cpu_nanos(cpus@).unwrap(),
{
    read_scaled(cpus, NANOS_PER_CPU)
}

} // verus!
