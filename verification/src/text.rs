use vstd::prelude::*;

verus! {

/// The characters of `s`, one per element.
pub fn chars_of(s: &str) -> (v: Vec<char>)
    ensures
        v@ == s@,
{
    let mut v: Vec<char> = Vec::new();
    for c in it: s.chars()
        invariant
            v@ == it.seq().take(it.index() as int),
            it.seq() == s@,
    {
        v.push(c);
    }
    v
}

/// An ASCII decimal digit.
pub open spec fn is_digit(c: char) -> bool {
    '0' <= c <= '9'
}

/// The value of a decimal digit character.
pub open spec fn digit_value(c: char) -> int {
    c as int - '0' as int
}

/// The character that writes the decimal digit `d`.
pub open spec fn digit_char(d: int) -> char {
    (d + '0' as int) as char
}

/// Every character of `t` is a decimal digit.
pub open spec fn all_digits(t: Seq<char>) -> bool {
    forall|i: int| 0 <= i < t.len() ==> is_digit(#[trigger] t[i])
}

/// The number that a string of decimal digits writes, most significant digit first.
pub open spec fn digits_value(t: Seq<char>) -> int
    decreases t.len(),
{
    if t.len() == 0 {
        0
    } else {
        digits_value(t.drop_last()) * 10 + digit_value(t.last())
    }
}

/// The shortest decimal writing of a natural number (no leading zeros).
pub open spec fn digits_of(n: nat) -> Seq<char>
    decreases n,
{
    if n < 10 {
        seq![digit_char(n as int)]
    } else {
        digits_of(n / 10).push(digit_char((n % 10) as int))
    }
}

/// How an integer is written in decimal: a minus sign for negative numbers, then the
/// digits of its magnitude without leading zeros.
pub open spec fn decimal_of(n: int) -> Seq<char> {
    if n < 0 {
        seq!['-'] + digits_of((-n) as nat)
    } else {
        digits_of(n as nat)
    }
}

/// `t` is exactly how some integer in `lo..=hi` is written in decimal, so that
/// reading it as a number and writing that number back gives `t` again.
pub open spec fn is_canonical_int(t: Seq<char>, lo: int, hi: int) -> bool {
    exists|n: int| lo <= n <= hi && #[trigger] decimal_of(n) == t
}

/// A nonempty run of digits without a leading zero (a lone "0" is allowed).
pub open spec fn canonical_digits(t: Seq<char>) -> bool {
    &&& t.len() > 0
    &&& all_digits(t)
    &&& (t[0] != '0' || t.len() == 1)
}

proof fn lemma_digit_roundtrip(c: char, d: int)
    ensures
        is_digit(c) ==> digit_char(digit_value(c)) == c,
        0 <= d < 10 ==> digit_value(digit_char(d)) == d && is_digit(digit_char(d)),
{
}

pub proof fn lemma_digits_value_nonneg(t: Seq<char>)
    requires
        all_digits(t),
    ensures
        digits_value(t) >= 0,
        t.len() > 0 && t[0] != '0' ==> digits_value(t) >= 1,
    decreases t.len(),
{
    if t.len() > 0 {
        lemma_digits_value_nonneg(t.drop_last());
        if t.len() > 1 {
            assert(t.drop_last()[0] == t[0]);
        }
    }
}

pub proof fn lemma_digits_value_prefix(t: Seq<char>, k: int)
    requires
        all_digits(t),
        0 <= k <= t.len(),
    ensures
        digits_value(t.take(k)) <= digits_value(t),
    decreases t.len() - k,
{
    if k < t.len() {
        lemma_digits_value_prefix(t, k + 1);
        assert(t.take(k + 1).drop_last() =~= t.take(k));
        assert(all_digits(t.take(k)));
        lemma_digits_value_nonneg(t.take(k));
    } else {
        assert(t.take(k) =~= t);
    }
}

pub proof fn lemma_digits_of_canonical(n: nat)
    ensures
        canonical_digits(digits_of(n)),
        digits_value(digits_of(n)) == n,
        n >= 10 ==> digits_of(n).len() >= 2,
    decreases n,
{
    if n < 10 {
        lemma_digit_roundtrip('0', n as int);
        assert(digits_of(n).drop_last() =~= Seq::<char>::empty());
        assert(digits_value(digits_of(n).drop_last()) == 0);
    } else {
        lemma_digits_of_canonical(n / 10);
        lemma_digit_roundtrip('0', (n % 10) as int);
        let s = digits_of(n);
        assert(s.drop_last() =~= digits_of(n / 10));
        assert(s[0] == digits_of(n / 10)[0]);
        if n / 10 < 10 {
            lemma_digit_roundtrip('0', (n / 10) as int);
        }
        assert(s.last() == digit_char((n % 10) as int));
        assert(digits_value(s) == digits_value(digits_of(n / 10)) * 10 + (n % 10));
        assert((n / 10) * 10 + n % 10 == n);
    }
}

pub proof fn lemma_canonical_is_digits_of(t: Seq<char>)
    requires
        canonical_digits(t),
    ensures
        digits_value(t) >= 0,
        digits_of(digits_value(t) as nat) == t,
    decreases t.len(),
{
    lemma_digits_value_nonneg(t);
    if t.len() == 1 {
        lemma_digit_roundtrip(t[0], 0);
        assert(t.drop_last() =~= Seq::<char>::empty());
        assert(digits_value(t.drop_last()) == 0);
        assert(digits_value(t) == digit_value(t[0]));
        assert(digits_of(digits_value(t) as nat) =~= seq![t[0]]);
        assert(digits_of(digits_value(t) as nat) =~= t);
    } else {
        let p = t.drop_last();
        assert(p[0] == t[0]);
        assert(all_digits(p));
        lemma_canonical_is_digits_of(p);
        lemma_digits_value_nonneg(p);
        lemma_digit_roundtrip(t.last(), 0);
        let v = digits_value(t);
        assert(v / 10 == digits_value(p));
        assert(v % 10 == digit_value(t.last()));
        assert(digits_of(v as nat) =~= t);
    }
}

/// Reading of `is_canonical_int` by the shape of the text: an optional minus sign
/// and a canonical run of digits whose value lies in the range.
proof fn lemma_canonical_int_shape(t: Seq<char>, lo: int, hi: int)
    requires
        lo <= 0 <= hi,
    ensures
        is_canonical_int(t, lo, hi) <==> ({
            ||| canonical_digits(t) && digits_value(t) <= hi
            ||| t.len() > 1 && t[0] == '-' && canonical_digits(t.drop_first()) && t[1] != '0'
                && digits_value(t.drop_first()) <= -lo
        }),
{
    if is_canonical_int(t, lo, hi) {
        let n = choose|n: int| lo <= n <= hi && #[trigger] decimal_of(n) == t;
        if n >= 0 {
            lemma_digits_of_canonical(n as nat);
        } else {
            lemma_digits_of_canonical((-n) as nat);
            assert(t.drop_first() =~= digits_of((-n) as nat));
            if t[1] == '0' {
                lemma_digit_roundtrip('0', 0);
                assert(t.drop_first().len() == 1);
            }
        }
    }
    if canonical_digits(t) && digits_value(t) <= hi {
        lemma_canonical_is_digits_of(t);
        assert(decimal_of(digits_value(t)) == t);
    }
    if t.len() > 1 && t[0] == '-' && canonical_digits(t.drop_first()) && t[1] != '0'
        && digits_value(t.drop_first()) <= -lo {
        let d = t.drop_first();
        lemma_canonical_is_digits_of(d);
        lemma_digits_value_nonneg(d);
        let n = -digits_value(d);
        assert(decimal_of(n) =~= t);
    }
}

/// Whether `v[start..end]` is exactly the decimal writing of an integer in `lo..=hi`.
pub fn is_canonical_int_at(v: &Vec<char>, start: usize, end: usize, lo: i64, hi: i64) -> (ok: bool)
    requires
        start <= end <= v@.len(),
        -0x1_0000_0000 <= lo <= 0 <= hi <= 0x1_0000_0000,
    ensures
        ok == is_canonical_int(v@.subrange(start as int, end as int), lo as int, hi as int),
{
    let ghost t = v@.subrange(start as int, end as int);
    proof {
        lemma_canonical_int_shape(t, lo as int, hi as int);
    }
    if start == end {
        return false;
    }
    let neg = v[start] == '-';
    let ds = if neg { start + 1 } else { start };
    let ghost d = v@.subrange(ds as int, end as int);
    assert(neg ==> d =~= t.drop_first());
    assert(!neg ==> d =~= t);
    assert(t[0] == v@[start as int]);
    assert(!is_digit('-'));
    if ds == end {
        return false;
    }
    assert(d[0] == v@[ds as int]);
    assert(neg ==> t[1] == v@[ds as int]);
    if v[ds] == '0' && end - ds > 1 {
        return false;
    }
    if neg && v[ds] == '0' {
        return false;
    }
    let bound: i64 = if neg { -lo } else { hi };
    let mut val: i64 = 0;
    let mut i = ds;
    #[verifier::loop_isolation(false)]
    while i < end
        invariant
            ds <= i <= end <= v@.len(),
            d == v@.subrange(ds as int, end as int),
            all_digits(v@.subrange(ds as int, i as int)),
            val == digits_value(v@.subrange(ds as int, i as int)),
            0 <= val <= bound,
            bound <= 0x1_0000_0000,
        decreases end - i,
    {
        let c = v[i];
        assert(v@.subrange(ds as int, i as int) =~= d.take(i - ds));
        if !('0' <= c && c <= '9') {
            assert(!all_digits(d)) by {
                assert(d[i - ds] == c);
            }
            return false;
        }
        let dv = (c as u32 - 48) as i64;
        let ghost p = v@.subrange(ds as int, i + 1);
        assert(p.drop_last() =~= v@.subrange(ds as int, i as int));
        assert(p.last() == c);
        val = val * 10 + dv;
        i = i + 1;
        assert(all_digits(p));
        if val > bound {
            proof {
                assert(p =~= d.take(i - ds));
                if all_digits(d) {
                    lemma_digits_value_prefix(d, i - ds);
                }
            }
            return false;
        }
    }
    assert(d =~= v@.subrange(ds as int, i as int));
    true
}

/// Appends the decimal digits of `n`.
pub fn push_digits(v: &mut Vec<char>, n: u32)
    ensures
        final(v)@ == old(v)@ + digits_of(n as nat),
    decreases n,
{
    if n >= 10 {
        push_digits(v, n / 10);
    }
    let d = (n % 10) as u8;
    let c = (d + 48) as char;
    v.push(c);
    proof {
        if n >= 10 {
            assert(digits_of(n as nat) == digits_of((n / 10) as nat).push(c));
        } else {
            assert(digits_of(n as nat) == seq![c]);
        }
    }
    assert(final(v)@ =~= old(v)@ + digits_of(n as nat));
}

/// Builds a `String` from its characters by `String::from_iter`, which collects the
/// characters in order: the string's characters are exactly those of `v`.
#[verifier::external_body]
pub fn string_from_chars(v: &Vec<char>) -> (s: String)
    ensures
        s@ == v@,
{
    String::from_iter(v)
}

/// The decimal writing of `n`, as `n.to_string()` gives it.
pub fn decimal_string(n: u32) -> (s: String)
    ensures
        s@ == digits_of(n as nat),
{
    let mut v: Vec<char> = Vec::new();
    push_digits(&mut v, n);
    assert(v@ =~= digits_of(n as nat));
    string_from_chars(&v)
}

} // verus!
