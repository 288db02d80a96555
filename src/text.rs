//! Character-level helpers shared by the planners: decimal rendering,
//! prefixes, substrings and trimming, each with a model over `Seq<char>`.
use vstd::prelude::*;

verus! {

/// The character of a decimal digit.
pub open spec fn digit_char(d: nat) -> char {
    if d == 0 {
        '0'
    } else if d == 1 {
        '1'
    } else if d == 2 {
        '2'
    } else if d == 3 {
        '3'
    } else if d == 4 {
        '4'
    } else if d == 5 {
        '5'
    } else if d == 6 {
        '6'
    } else if d == 7 {
        '7'
    } else if d == 8 {
        '8'
    } else {
        '9'
    }
}

/// The decimal rendering of a natural number, without sign or leading zeros.
pub open spec fn dec_text(n: nat) -> Seq<char>
    decreases n,
{
    if n < 10 {
        seq![digit_char(n)]
    } else {
        dec_text(n / 10).push(digit_char(n % 10))
    }
}

fn digit_str(d: u64) -> (r: &'static str)
    requires
        d < 10,
    ensures
        r@ == seq![digit_char(d as nat)],
{
    proof {
        reveal_strlit("0");
        reveal_strlit("1");
        reveal_strlit("2");
        reveal_strlit("3");
        reveal_strlit("4");
        reveal_strlit("5");
        reveal_strlit("6");
        reveal_strlit("7");
        reveal_strlit("8");
        reveal_strlit("9");
    }
    let r = if d == 0 {
        "0"
    } else if d == 1 {
        "1"
    } else if d == 2 {
        "2"
    } else if d == 3 {
        "3"
    } else if d == 4 {
        "4"
    } else if d == 5 {
        "5"
    } else if d == 6 {
        "6"
    } else if d == 7 {
        "7"
    } else if d == 8 {
        "8"
    } else {
        "9"
    };
    assert(r@ =~= seq![digit_char(d as nat)]);
    r
}

/// Renders `n` in decimal.
pub fn decimal_text(n: u64) -> (r: String)
    ensures
        r@ == dec_text(n as nat),
    decreases n,
{
    if n < 10 {
        String::from_str(digit_str(n))
    } else {
        let mut s = decimal_text(n / 10);
        s.append(digit_str(n % 10));
        s
    }
}

/// `p` is a prefix of `s`.
pub open spec fn has_prefix(s: Seq<char>, p: Seq<char>) -> bool {
    p.len() <= s.len() && s.subrange(0, p.len() as int) == p
}

/// `p` occurs in `s` at position `i`.
pub open spec fn occurs_at(s: Seq<char>, p: Seq<char>, i: int) -> bool {
    0 <= i && i + p.len() <= s.len() && s.subrange(i, i + p.len()) == p
}

/// `p` occurs somewhere in `s`.
pub open spec fn contains_text(s: Seq<char>, p: Seq<char>) -> bool {
    exists|i: int| occurs_at(s, p, i)
}

/// Tells whether `s` starts with `p`.
pub fn starts_with_text(s: &str, p: &str) -> (r: bool)
    ensures
        r == has_prefix(s@, p@),
{
    let n = s.unicode_len();
    let m = p.unicode_len();
    if m > n {
        return false;
    }
    let mut i: usize = 0;
    while i < m
        invariant
            m <= n,
            n == s@.len(),
            m == p@.len(),
            i <= m,
            forall|j: int| 0 <= j < i ==> s@[j] == p@[j],
        decreases m - i,
    {
        if s.get_char(i) != p.get_char(i) {
            assert(s@.subrange(0, m as int)[i as int] != p@[i as int]);
            return false;
        }
        i = i + 1;
    }
    assert(s@.subrange(0, m as int) =~= p@);
    true
}

/// Tells whether `a` and `b` hold the same characters.
pub fn same_text(a: &str, b: &str) -> (r: bool)
    ensures
        r == (a@ == b@),
{
    if a.unicode_len() != b.unicode_len() {
        return false;
    }
    let r = starts_with_text(a, b);
    proof {
        assert(a@.subrange(0, b@.len() as int) =~= a@);
    }
    r
}

fn matches_at(s: &str, p: &str, start: usize) -> (r: bool)
    requires
        start + p@.len() <= s@.len(),
    ensures
        r == occurs_at(s@, p@, start as int),
{
    let n = s.unicode_len();
    let m = p.unicode_len();
    let mut i: usize = 0;
    while i < m
        invariant
            n == s@.len(),
            m == p@.len(),
            start + m <= s@.len(),
            i <= m,
            forall|j: int| 0 <= j < i ==> s@[start + j] == p@[j],
        decreases m - i,
    {
        if s.get_char(start + i) != p.get_char(i) {
            assert(s@.subrange(start as int, start + m)[i as int] != p@[i as int]);
            return false;
        }
        i = i + 1;
    }
    assert(s@.subrange(start as int, start + m) =~= p@);
    true
}

/// Tells whether `p` occurs in `s`.
pub fn contains(s: &str, p: &str) -> (r: bool)
    ensures
        r == contains_text(s@, p@),
{
    let n = s.unicode_len();
    let m = p.unicode_len();
    if m > n {
        return false;
    }
    if m == 0 {
        assert(s@.subrange(0, 0) =~= p@);
        assert(occurs_at(s@, p@, 0));
        return true;
    }
    let mut i: usize = 0;
    while i <= n - m
        invariant
            n == s@.len(),
            m == p@.len(),
            0 < m <= n,
            i <= n - m + 1,
            forall|j: int| 0 <= j < i ==> !occurs_at(s@, p@, j),
        decreases n + 1 - i,
    {
        if matches_at(s, p, i) {
            return true;
        }
        i = i + 1;
    }
    false
}

/// `s` with every leading `'/'` removed.
pub open spec fn strip_slashes(s: Seq<char>) -> Seq<char>
    decreases s.len(),
{
    if s.len() > 0 && s[0] == '/' {
        strip_slashes(s.drop_first())
    } else {
        s
    }
}

proof fn lemma_strip_slashes_from(s: Seq<char>, i: int)
    requires
        0 <= i <= s.len(),
        forall|j: int| 0 <= j < i ==> s[j] == '/',
    ensures
        strip_slashes(s) == strip_slashes(s.subrange(i, s.len() as int)),
    decreases i,
{
    if i > 0 {
        assert(s.drop_first() =~= s.subrange(1, s.len() as int));
        lemma_strip_slashes_from(s.drop_first(), i - 1);
        assert(s.drop_first().subrange(i - 1, s.drop_first().len() as int) =~= s.subrange(
            i,
            s.len() as int,
        ));
    } else {
        assert(s.subrange(0, s.len() as int) =~= s);
    }
}

/// Removes every leading `'/'`, as the runtime prefixes container names.
pub fn trim_slashes(s: &str) -> (r: String)
    ensures
        r@ == strip_slashes(s@),
{
    let n = s.unicode_len();
    let mut i: usize = 0;
    while i < n && s.get_char(i) == '/'
        invariant
            n == s@.len(),
            i <= n,
            forall|j: int| 0 <= j < i ==> s@[j] == '/',
        decreases n - i,
    {
        i = i + 1;
    }
    proof {
        lemma_strip_slashes_from(s@, i as int);
        let t = s@.subrange(i as int, n as int);
        if t.len() > 0 {
            assert(t[0] == s@[i as int]);
        }
    }
    String::from_str(s.substring_char(i, n))
}

/// White space as Unicode defines it (the `White_Space` property, which is
/// what `char::is_whitespace` tests): tab to carriage return, space, next
/// line, no-break space, ogham space, the en quad to hair space block, the
/// line and paragraph separators, and the narrow, medium mathematical and
/// ideographic spaces.
pub open spec fn is_blank(c: char) -> bool {
    ('\u{9}' <= c && c <= '\u{D}') || c == ' ' || c == '\u{85}' || c == '\u{A0}' || c
        == '\u{1680}' || ('\u{2000}' <= c && c <= '\u{200A}') || c == '\u{2028}' || c
        == '\u{2029}' || c == '\u{202F}' || c == '\u{205F}' || c == '\u{3000}'
}

/// Index of the first character that is not blank.
pub open spec fn first_non_blank(s: Seq<char>) -> int
    decreases s.len(),
{
    if s.len() > 0 && is_blank(s[0]) {
        1 + first_non_blank(s.drop_first())
    } else {
        0
    }
}

/// Length of `s` once trailing blanks are dropped.
pub open spec fn end_non_blank(s: Seq<char>) -> int
    decreases s.len(),
{
    if s.len() > 0 && is_blank(s.last()) {
        end_non_blank(s.drop_last())
    } else {
        s.len() as int
    }
}

/// `s` without leading and trailing blanks.
pub open spec fn trim_blanks(s: Seq<char>) -> Seq<char> {
    let t = s.subrange(first_non_blank(s), s.len() as int);
    t.subrange(0, end_non_blank(t))
}

pub proof fn lemma_first_non_blank(s: Seq<char>, i: int)
    requires
        0 <= i <= s.len(),
        forall|j: int| 0 <= j < i ==> is_blank(s[j]),
        i == s.len() || !is_blank(s[i]),
    ensures
        first_non_blank(s) == i,
    decreases i,
{
    if i > 0 {
        lemma_first_non_blank(s.drop_first(), i - 1);
    }
}

pub proof fn lemma_end_non_blank(s: Seq<char>, k: int)
    requires
        0 <= k <= s.len(),
        forall|j: int| k <= j < s.len() ==> is_blank(s[j]),
        k == 0 || !is_blank(s[k - 1]),
    ensures
        end_non_blank(s) == k,
    decreases s.len(),
{
    if s.len() > k {
        lemma_end_non_blank(s.drop_last(), k);
    }
}

/// Drops leading and trailing blanks.
pub fn trim(s: &str) -> (r: String)
    ensures
        r@ == trim_blanks(s@),
{
    let n = s.unicode_len();
    let mut i: usize = 0;
    while i < n && is_blank_char(s.get_char(i))
        invariant
            n == s@.len(),
            i <= n,
            forall|j: int| 0 <= j < i ==> is_blank(s@[j]),
        decreases n - i,
    {
        i = i + 1;
    }
    let mut k: usize = n;
    while k > i && is_blank_char(s.get_char(k - 1))
        invariant
            n == s@.len(),
            i <= k <= n,
            forall|j: int| k <= j < n ==> is_blank(s@[j]),
        decreases k,
    {
        k = k - 1;
    }
    proof {
        lemma_first_non_blank(s@, i as int);
        let t = s@.subrange(i as int, n as int);
        lemma_end_non_blank(t, k - i);
        assert(t.subrange(0, k - i) =~= s@.subrange(i as int, k as int));
    }
    String::from_str(s.substring_char(i, k))
}

/// Tells whether `c` is one of the blanks that `trim` drops.
pub fn is_blank_char(c: char) -> (r: bool)
    ensures
        r == is_blank(c),
{
    ('\u{9}' <= c && c <= '\u{D}') || c == ' ' || c == '\u{85}' || c == '\u{A0}' || c
        == '\u{1680}' || ('\u{2000}' <= c && c <= '\u{200A}') || c == '\u{2028}' || c
        == '\u{2029}' || c == '\u{202F}' || c == '\u{205F}' || c == '\u{3000}'
}

} // verus!
