//! Character-level helpers shared by the recognizers: whitespace, trimming,
//! literal matching and decimal numbers.

use vstd::prelude::*;
use vstd::string::*;

verus! {

/// The characters that `char::is_whitespace` accepts (Unicode `White_Space`).
pub open spec fn is_space(c: char) -> bool {
    let u = c as u32;
    (9 <= u && u <= 13) || u == 32 || u == 0x85 || u == 0xa0 || u == 0x1680 || (0x2000 <= u
        && u <= 0x200a) || u == 0x2028 || u == 0x2029 || u == 0x202f || u == 0x205f || u == 0x3000
}

/// `s` without its leading whitespace.
pub open spec fn trim_start(s: Seq<char>) -> Seq<char>
    decreases s.len(),
{
    if s.len() > 0 && is_space(s[0]) {
        trim_start(s.drop_first())
    } else {
        s
    }
}

/// `s` without its trailing whitespace.
pub open spec fn trim_end(s: Seq<char>) -> Seq<char>
    decreases s.len(),
{
    if s.len() > 0 && is_space(s.last()) {
        trim_end(s.drop_last())
    } else {
        s
    }
}

/// `s` without leading or trailing whitespace.
pub open spec fn trim(s: Seq<char>) -> Seq<char> {
    trim_end(trim_start(s))
}

/// `p` is a prefix of `t`.
pub open spec fn has_prefix(t: Seq<char>, p: Seq<char>) -> bool {
    p.len() <= t.len() && t.take(p.len() as int) == p
}

/// The decimal digits `0` to `9`, in order.
pub open spec fn digit_chars() -> Seq<char> {
    "0123456789"@
}

/// The decimal notation of `n`, without sign or leading zeros.
pub open spec fn decimal(n: nat) -> Seq<char>
    decreases n,
{
    if n < 10 {
        digit_chars().subrange(n as int, n as int + 1)
    } else {
        decimal(n / 10) + digit_chars().subrange((n % 10) as int, (n % 10) as int + 1)
    }
}

pub fn is_space_char(c: char) -> (r: bool)
    ensures
        r == is_space(c),
{
    let u = c as u32;
    (9 <= u && u <= 13) || u == 32 || u == 0x85 || u == 0xa0 || u == 0x1680 || (0x2000 <= u
        && u <= 0x200a) || u == 0x2028 || u == 0x2029 || u == 0x202f || u == 0x205f || u == 0x3000
}

/// The characters of `s`, one per element.
pub fn chars_of(s: &str) -> (r: Vec<char>)
    ensures
        r@ == s@,
{
    let n = s.unicode_len();
    let mut v: Vec<char> = Vec::new();
    let mut i: usize = 0;
    while i < n
        invariant
            n == s@.len(),
            i <= n,
            v@ == s@.take(i as int),
        decreases n - i,
    {
        let c = s.get_char(i);
        v.push(c);
        i = i + 1;
        assert(s@.take(i as int) =~= s@.take(i - 1).push(c));
    }
    assert(s@.take(n as int) =~= s@);
    v
}

proof fn lemma_trim_start_skip(s: Seq<char>, i: int)
    requires
        0 <= i < s.len(),
        is_space(s[i]),
    ensures
        trim_start(s.skip(i)) == trim_start(s.skip(i + 1)),
{
    assert(s.skip(i).drop_first() =~= s.skip(i + 1));
}

proof fn lemma_trim_end_take(s: Seq<char>, a: int, b: int)
    requires
        0 <= a < b <= s.len(),
        is_space(s[b - 1]),
    ensures
        trim_end(s.subrange(a, b)) == trim_end(s.subrange(a, b - 1)),
{
    assert(s.subrange(a, b).drop_last() =~= s.subrange(a, b - 1));
}

/// The bounds `(a, b)` of the part of `c` that trimming keeps.
pub fn trim_bounds(c: &Vec<char>) -> (r: (usize, usize))
    ensures
        r.0 <= r.1 <= c@.len(),
        c@.subrange(r.0 as int, r.1 as int) == trim(c@),
{
    let n = c.len();
    let mut a: usize = 0;
    assert(c@.skip(0) =~= c@);
    while a < n && is_space_char(c[a])
        invariant
            n == c@.len(),
            a <= n,
            trim_start(c@.skip(a as int)) == trim_start(c@),
        decreases n - a,
    {
        proof {
            lemma_trim_start_skip(c@, a as int);
        }
        a = a + 1;
    }
    assert(trim_start(c@.skip(a as int)) == c@.skip(a as int));
    assert(c@.skip(a as int) =~= c@.subrange(a as int, n as int));
    let mut b: usize = n;
    while b > a && is_space_char(c[b - 1])
        invariant
            n == c@.len(),
            a <= b <= n,
            trim_end(c@.subrange(a as int, b as int)) == trim(c@),
        decreases b,
    {
        proof {
            lemma_trim_end_take(c@, a as int, b as int);
        }
        b = b - 1;
    }
    (a, b)
}

/// Whether the window `c[from..to]` holds exactly the characters of `lit`.
pub fn window_is(c: &Vec<char>, from: usize, to: usize, lit: &str) -> (r: bool)
    requires
        from <= to <= c@.len(),
    ensures
        r == (c@.subrange(from as int, to as int) == lit@),
{
    let n = lit.unicode_len();
    if to - from != n {
        return false;
    }
    let mut i: usize = 0;
    while i < n
        invariant
            n == lit@.len(),
            to - from == n,
            from <= to <= c@.len(),
            i <= n,
            forall|j: int| 0 <= j < i ==> c@[from + j] == lit@[j],
        decreases n - i,
    {
        if c[from + i] != lit.get_char(i) {
            assert(c@.subrange(from as int, to as int)[i as int] != lit@[i as int]);
            return false;
        }
        i = i + 1;
    }
    assert(c@.subrange(from as int, to as int) =~= lit@);
    true
}

/// Whether the window `c[from..to]` begins with the characters of `lit`.
pub fn window_starts_with(c: &Vec<char>, from: usize, to: usize, lit: &str) -> (r: bool)
    requires
        from <= to <= c@.len(),
    ensures
        r == has_prefix(c@.subrange(from as int, to as int), lit@),
{
    let n = lit.unicode_len();
    if to - from < n {
        return false;
    }
    let r = window_is(c, from, from + n, lit);
    assert(c@.subrange(from as int, to as int).take(n as int) =~= c@.subrange(
        from as int,
        from + n,
    ));
    r
}

/// The decimal notation of `n`.
pub fn decimal_string(n: usize) -> (r: String)
    ensures
        r@ == decimal(n as nat),
    decreases n,
{
    proof {
        reveal_strlit("0123456789");
    }
    let digits = "0123456789";
    if n < 10 {
        String::from_str(digits.substring_char(n, n + 1))
    } else {
        let mut s = decimal_string(n / 10);
        s.append(digits.substring_char(n % 10, n % 10 + 1));
        s
    }
}

} // verus!
