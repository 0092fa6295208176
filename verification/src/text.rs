//! Small verified text helpers: character search, string equality, and
//! bounded radix-number parsing, shared by the listen-address grammar and the
//! socket-activation protocol.

use vstd::prelude::*;

verus! {

/// Whether `c` is a digit of the given base (bases up to 10: `'0'` upward).
pub open spec fn is_radix_digit(c: char, base: int) -> bool {
    48 <= c as int && (c as int) < 48 + base
}

/// A non-empty digit string of the given base.
pub open spec fn radix_seq_ok(s: Seq<char>, base: int) -> bool {
    s.len() >= 1 && forall|i: int| 0 <= i < s.len() ==> is_radix_digit(#[trigger] s[i], base)
}

/// The number a digit string denotes, most significant digit first.
pub open spec fn radix_value(s: Seq<char>, base: int) -> int
    decreases s.len(),
{
    if s.len() == 0 {
        0
    } else {
        radix_value(s.drop_last(), base) * base + (s.last() as int - 48)
    }
}

/// `base` raised to `e`.
pub open spec fn pow_int(base: int, e: nat) -> int
    decreases e,
{
    if e == 0 {
        1
    } else {
        base * pow_int(base, (e - 1) as nat)
    }
}

pub proof fn lemma_pow_pos(base: int, e: nat)
    requires
        base >= 1,
    ensures
        pow_int(base, e) >= 1,
    decreases e,
{
    if e > 0 {
        lemma_pow_pos(base, (e - 1) as nat);
        assert(base * pow_int(base, (e - 1) as nat) >= pow_int(base, (e - 1) as nat))
            by (nonlinear_arith)
            requires
                base >= 1,
                pow_int(base, (e - 1) as nat) >= 1,
        ;
    }
}

pub proof fn lemma_pow_mono(base: int, e1: nat, e2: nat)
    requires
        base >= 1,
        e1 <= e2,
    ensures
        pow_int(base, e1) <= pow_int(base, e2),
    decreases e2,
{
    if e1 < e2 {
        lemma_pow_mono(base, e1, (e2 - 1) as nat);
        lemma_pow_pos(base, (e2 - 1) as nat);
        assert(base * pow_int(base, (e2 - 1) as nat) >= pow_int(base, (e2 - 1) as nat))
            by (nonlinear_arith)
            requires
                base >= 1,
                pow_int(base, (e2 - 1) as nat) >= 1,
        ;
    }
}

/// A digit string's value is bounded by `base` to the power of its length.
pub proof fn lemma_radix_value_bound(s: Seq<char>, base: int)
    requires
        base >= 2,
        forall|i: int| 0 <= i < s.len() ==> is_radix_digit(#[trigger] s[i], base),
    ensures
        0 <= radix_value(s, base) < pow_int(base, s.len()),
    decreases s.len(),
{
    if s.len() == 0 {
    } else {
        let prefix = s.drop_last();
        assert(forall|i: int|
            0 <= i < prefix.len() ==> is_radix_digit(#[trigger] prefix[i], base));
        lemma_radix_value_bound(prefix, base);
        let p = pow_int(base, prefix.len());
        let d = s.last() as int - 48;
        assert(0 <= d < base);
        assert(radix_value(prefix, base) * base + d < p * base) by (nonlinear_arith)
            requires
                base >= 2,
                0 <= radix_value(prefix, base) < p,
                0 <= d < base,
        ;
        assert(radix_value(prefix, base) * base >= 0) by (nonlinear_arith)
            requires
                base >= 2,
                radix_value(prefix, base) >= 0,
        ;
        assert(pow_int(base, s.len()) == base * p);
        assert(radix_value(s, base) == radix_value(prefix, base) * base + d);
    }
}

/// The position of the first occurrence of `c` in `s`, or the length of `s`
/// when `c` does not occur.
pub open spec fn first_at(s: Seq<char>, c: char) -> nat
    decreases s.len(),
{
    if s.len() == 0 {
        0
    } else if s[0] == c {
        0
    } else {
        1 + first_at(s.drop_first(), c)
    }
}

/// A position left of which `c` does not occur, and which holds `c` unless it
/// is the length, is the first occurrence.
pub proof fn lemma_first_at(s: Seq<char>, c: char, i: int)
    requires
        0 <= i <= s.len(),
        forall|j: int| 0 <= j < i ==> s[j] != c,
        i < s.len() ==> s[i] == c,
    ensures
        first_at(s, c) == i,
    decreases s.len(),
{
    if s.len() == 0 {
    } else if s[0] == c {
        if i > 0 {
            assert(s[0] != c);
        }
    } else {
        assert(i >= 1);
        let t = s.drop_first();
        assert(forall|j: int| 0 <= j < i - 1 ==> #[trigger] t[j] == s[j + 1]);
        lemma_first_at(t, c, i - 1);
    }
}

/// Character-wise string equality, decided over the views.
pub fn str_eq(a: &str, b: &str) -> (r: bool)
    ensures
        r == (a@ == b@),
{
    let n = a.unicode_len();
    let m = b.unicode_len();
    if n != m {
        proof {
            if a@ == b@ {
                assert(a@.len() == b@.len());
            }
        }
        return false;
    }
    let mut i: usize = 0;
    while i < n
        invariant
            i <= n,
            n == a@.len(),
            n == b@.len(),
            forall|j: int| 0 <= j < i ==> a@[j] == b@[j],
        decreases n - i,
    {
        let ca = a.get_char(i);
        let cb = b.get_char(i);
        if ca != cb {
            proof {
                if a@ == b@ {
                    assert(a@[i as int] == b@[i as int]);
                }
            }
            return false;
        }
        i += 1;
    }
    proof {
        assert(a@ =~= b@);
    }
    true
}

/// The first position at or after `from` holding `c`, or the length of `s`
/// when no such position exists.
pub fn find_char(s: &str, from: usize, c: char) -> (r: usize)
    requires
        from <= s@.len(),
    ensures
        from <= r <= s@.len(),
        forall|j: int| from <= j < r ==> s@[j] != c,
        r < s@.len() ==> s@[r as int] == c,
{
    let n = s.unicode_len();
    let mut i = from;
    while i < n
        invariant
            from <= i <= n,
            n == s@.len(),
            forall|j: int| from <= j < i ==> s@[j] != c,
        decreases n - i,
    {
        if s.get_char(i) == c {
            return i;
        }
        i += 1;
    }
    i
}

/// A decimal digit string short enough that its value always fits in `u64`.
pub open spec fn dec_u64_ok(s: Seq<char>) -> bool {
    radix_seq_ok(s, 10) && s.len() <= 19
}

/// An octal digit string short enough to denote a permission mode in `u32`.
pub open spec fn octal_u32_ok(s: Seq<char>) -> bool {
    radix_seq_ok(s, 8) && s.len() <= 6
}

/// Parses a non-empty decimal string of at most nineteen digits.
pub fn parse_u64_decimal(s: &str) -> (r: Option<u64>)
    ensures
        match r {
            Some(v) => dec_u64_ok(s@) && v == radix_value(s@, 10),
            None => !dec_u64_ok(s@),
        },
{
    let n = s.unicode_len();
    if n < 1 || n > 19 {
        return None;
    }
    let mut v: u64 = 0;
    let mut i: usize = 0;
    while i < n
        invariant
            i <= n,
            1 <= n <= 19,
            n == s@.len(),
            forall|j: int| 0 <= j < i ==> is_radix_digit(#[trigger] s@[j], 10),
            v == radix_value(s@.subrange(0, i as int), 10),
            0 <= v < pow_int(10, i as nat),
        decreases n - i,
    {
        let c = s.get_char(i) as u32;
        if c < 48 || c > 57 {
            return None;
        }
        let d = (c - 48) as u64;
        proof {
            assert(s@.subrange(0, i + 1).drop_last() =~= s@.subrange(0, i as int));
            assert(s@.subrange(0, i + 1).last() == s@[i as int]);
            lemma_pow_mono(10, (i + 1) as nat, 19);
            reveal_with_fuel(pow_int, 20);
            assert(pow_int(10, 19) == 10000000000000000000);
            lemma_radix_value_bound(s@.subrange(0, i + 1), 10);
        }
        v = v * 10 + d;
        i += 1;
    }
    proof {
        assert(s@.subrange(0, n as int) =~= s@);
    }
    Some(v)
}

/// Parses a non-empty octal string of at most six digits.
pub fn parse_u32_octal(s: &str) -> (r: Option<u32>)
    ensures
        match r {
            Some(v) => octal_u32_ok(s@) && v == radix_value(s@, 8),
            None => !octal_u32_ok(s@),
        },
{
    let n = s.unicode_len();
    if n < 1 || n > 6 {
        return None;
    }
    let mut v: u32 = 0;
    let mut i: usize = 0;
    while i < n
        invariant
            i <= n,
            1 <= n <= 6,
            n == s@.len(),
            forall|j: int| 0 <= j < i ==> is_radix_digit(#[trigger] s@[j], 8),
            v == radix_value(s@.subrange(0, i as int), 8),
            0 <= v < pow_int(8, i as nat),
        decreases n - i,
    {
        let c = s.get_char(i) as u32;
        if c < 48 || c > 55 {
            return None;
        }
        let d = c - 48;
        proof {
            assert(s@.subrange(0, i + 1).drop_last() =~= s@.subrange(0, i as int));
            assert(s@.subrange(0, i + 1).last() == s@[i as int]);
            lemma_pow_mono(8, (i + 1) as nat, 6);
            reveal_with_fuel(pow_int, 7);
            assert(pow_int(8, 6) == 262144);
            lemma_radix_value_bound(s@.subrange(0, i + 1), 8);
        }
        v = v * 8 + d;
        i += 1;
    }
    proof {
        assert(s@.subrange(0, n as int) =~= s@);
    }
    Some(v)
}

} // verus!
