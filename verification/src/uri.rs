use vstd::prelude::*;

use crate::text::{
    all_digits, chars_of, decimal_of, digits_of, is_canonical_int, is_canonical_int_at, is_digit,
    lemma_digits_of_canonical,
};

verus! {

/// The pieces that `s.split(c)` yields, in order: the text between consecutive
/// occurrences of `c`, together with the text before the first and after the last.
/// A string without `c` gives one piece, the empty string included.
pub open spec fn split_char(s: Seq<char>, c: char) -> Seq<Seq<char>>
    decreases s.len(),
{
    if s.len() == 0 {
        seq![Seq::<char>::empty()]
    } else {
        let rest = split_char(s.drop_first(), c);
        if s[0] == c {
            seq![Seq::<char>::empty()] + rest
        } else {
            rest.update(0, seq![s[0]] + rest[0])
        }
    }
}

/// The three characters "://" occur somewhere in `s`.
pub open spec fn has_scheme_separator(s: Seq<char>) -> bool {
    exists|i: int| 0 <= i && i + 3 <= s.len() && #[trigger] s[i] == ':' && s[i + 1] == '/' && s[i + 2] == '/'
}

/// Every character is ASCII.
pub open spec fn all_ascii(s: Seq<char>) -> bool {
    forall|i: int| 0 <= i < s.len() ==> #[trigger] s[i] <= '\u{7f}'
}

/// "HOSTNAME:PORT": exactly one colon, a hostname of 2 to 127 characters, and a port
/// written exactly as a `u16` is printed.
pub open spec fn valid_host_port(h: Seq<char>) -> bool {
    let f = split_char(h, ':');
    &&& f.len() == 2
    &&& 2 <= f[0].len() <= 127
    &&& is_canonical_int(f[1], 0, 65535)
}

/// "X,Y,Z,R": exactly four numbers, each written exactly as an `i32` is printed.
pub open spec fn valid_coordinates(c: Seq<char>) -> bool {
    let f = split_char(c, ',');
    &&& f.len() == 4
    &&& forall|i: int| 0 <= i < 4 ==> is_canonical_int(#[trigger] f[i], -0x8000_0000, 0x7fff_ffff)
}

/// "HOST:PORT/WORLD/raw/COORDS": exactly four slash-separated parts, a world name of
/// 1 to 15 characters and the literal part "raw".
pub open spec fn valid_location(p: Seq<char>) -> bool {
    let f = split_char(p, '/');
    &&& f.len() == 4
    &&& valid_host_port(f[0])
    &&& 1 <= f[1].len() <= 15
    &&& f[2] == seq!['r', 'a', 'w']
    &&& valid_coordinates(f[3])
}

/// A teleport URI that may be sent in an invite: ASCII only, at most 255 characters,
/// of the form "aw://HOST:PORT/WORLD/raw/X,Y,Z,R". Splitting it at "://" yields exactly
/// the scheme "aw" and the rest, so "://" occurs nowhere after the scheme.
pub open spec fn is_valid_uri_text(s: Seq<char>) -> bool {
    &&& all_ascii(s)
    &&& s.len() <= 255
    &&& s.len() >= 5
    &&& s.take(5) == seq!['a', 'w', ':', '/', '/']
    &&& !has_scheme_separator(s.skip(5))
    &&& valid_location(s.skip(5))
}

pub proof fn lemma_split_nonempty(s: Seq<char>, c: char)
    ensures
        split_char(s, c).len() >= 1,
    decreases s.len(),
{
    if s.len() > 0 {
        lemma_split_nonempty(s.drop_first(), c);
    }
}

pub proof fn lemma_split_without_separator(s: Seq<char>, c: char)
    requires
        forall|i: int| 0 <= i < s.len() ==> s[i] != c,
    ensures
        split_char(s, c) == seq![s],
    decreases s.len(),
{
    if s.len() == 0 {
        assert(s =~= Seq::<char>::empty());
    } else {
        lemma_split_without_separator(s.drop_first(), c);
        assert(seq![s[0]] + s.drop_first() =~= s);
        assert(split_char(s, c) =~= seq![s]);
    }
}

pub proof fn lemma_split_at_first(s: Seq<char>, c: char, p: int)
    requires
        0 <= p < s.len(),
        s[p] == c,
        forall|i: int| 0 <= i < p ==> s[i] != c,
    ensures
        split_char(s, c) == seq![s.take(p)] + split_char(s.skip(p + 1), c),
    decreases p,
{
    if p == 0 {
        assert(s.skip(1) =~= s.drop_first());
        assert(s.take(0) =~= Seq::<char>::empty());
    } else {
        let t = s.drop_first();
        lemma_split_at_first(t, c, p - 1);
        assert(t.skip(p) =~= s.skip(p + 1));
        assert(seq![s[0]] + t.take(p - 1) =~= s.take(p));
        lemma_split_nonempty(t.skip(p), c);
        assert(split_char(s, c) =~= seq![s.take(p)] + split_char(s.skip(p + 1), c));
    }
}

/// The first position in `from..to` that holds `c`, or `to` if there is none.
pub fn find_char(v: &Vec<char>, from: usize, to: usize, c: char) -> (p: usize)
    requires
        from <= to <= v@.len(),
    ensures
        from <= p <= to,
        forall|i: int| from <= i < p ==> v@[i] != c,
        p < to ==> v@[p as int] == c,
{
    let mut i = from;
    while i < to
        invariant
            from <= i <= to <= v@.len(),
            forall|j: int| from <= j < i ==> v@[j] != c,
        decreases to - i,
    {
        if v[i] == c {
            return i;
        }
        i = i + 1;
    }
    i
}

/// What one search step says about the split of `v[a..b]` at `c`.
pub proof fn lemma_split_step(v: Seq<char>, a: int, b: int, p: int, c: char)
    requires
        0 <= a <= p <= b <= v.len(),
        forall|i: int| a <= i < p ==> v[i] != c,
        p < b ==> v[p] == c,
    ensures
        p == b ==> split_char(v.subrange(a, b), c) == seq![v.subrange(a, b)],
        p < b ==> split_char(v.subrange(a, b), c) == seq![v.subrange(a, p)] + split_char(
            v.subrange(p + 1, b),
            c,
        ),
{
    let s = v.subrange(a, b);
    if p == b {
        lemma_split_without_separator(s, c);
    } else {
        lemma_split_at_first(s, c, p - a);
        assert(s.take(p - a) =~= v.subrange(a, p));
        assert(s.skip(p - a + 1) =~= v.subrange(p + 1, b));
    }
}

/// Checks that `uri` is a well-formed "aw://" teleport URI, as invites require.
#[verifier::loop_isolation(false)]
#[verifier::rlimit(40)]
pub fn is_valid_uri(uri: &str) -> (valid: bool)
    ensures
        valid == is_valid_uri_text(uri@),
{
    let v = chars_of(uri);
    let n = v.len();
    let ghost s = v@;
    for i in 0..n
        invariant
            n == v@.len(),
            s == v@,
            forall|j: int| 0 <= j < i ==> v@[j] <= '\u{7f}',
    {
        if v[i] > '\u{7f}' {
            assert(s[i as int] > '\u{7f}');
            return false;
        }
    }
    assert(all_ascii(s));
    if n > 255 || n < 5 {
        return false;
    }
    if !(v[0] == 'a' && v[1] == 'w' && v[2] == ':' && v[3] == '/' && v[4] == '/') {
        assert(s.take(5) != seq!['a', 'w', ':', '/', '/']) by {
            if s.take(5) == seq!['a', 'w', ':', '/', '/'] {
                assert(s.take(5)[0] == s[0]);
                assert(s.take(5)[1] == s[1]);
                assert(s.take(5)[2] == s[2]);
                assert(s.take(5)[3] == s[3]);
                assert(s.take(5)[4] == s[4]);
            }
        }
        return false;
    }
    assert(s.take(5) =~= seq!['a', 'w', ':', '/', '/']);
    let ghost rest = s.skip(5);
    let mut i: usize = 5;
    while i + 2 < n
        invariant
            5 <= i <= n,
            n == v@.len(),
            s == v@,
            rest == s.skip(5),
            forall|j: int| 5 <= j < i ==> !(#[trigger] v@[j] == ':' && v@[j + 1] == '/' && v@[j + 2] == '/'),
        decreases n - i,
    {
        if v[i] == ':' && v[i + 1] == '/' && v[i + 2] == '/' {
            assert(rest[i - 5] == ':' && rest[i - 4] == '/' && rest[i - 3] == '/');
            assert(has_scheme_separator(rest));
            return false;
        }
        i = i + 1;
    }
    assert(!has_scheme_separator(rest)) by {
        if has_scheme_separator(rest) {
            let k = choose|k: int|
                0 <= k && k + 3 <= rest.len() && #[trigger] rest[k] == ':' && rest[k + 1] == '/'
                    && rest[k + 2] == '/';
            assert(v@[k + 5] == ':');
        }
    }
    assert(rest =~= s.subrange(5, n as int));
    // HOST:PORT / WORLD / raw / COORDS
    let p1 = find_char(&v, 5, n, '/');
    proof {
        lemma_split_step(s, 5, n as int, p1 as int, '/');
    }
    if p1 == n {
        return false;
    }
    let p2 = find_char(&v, p1 + 1, n, '/');
    proof {
        lemma_split_step(s, p1 + 1, n as int, p2 as int, '/');
    }
    if p2 == n {
        return false;
    }
    let p3 = find_char(&v, p2 + 1, n, '/');
    proof {
        lemma_split_step(s, p2 + 1, n as int, p3 as int, '/');
    }
    if p3 == n {
        return false;
    }
    let p4 = find_char(&v, p3 + 1, n, '/');
    proof {
        lemma_split_step(s, p3 + 1, n as int, p4 as int, '/');
        if p4 < n {
            lemma_split_nonempty(s.subrange(p4 + 1, n as int), '/');
        }
    }
    if p4 < n {
        return false;
    }
    let ghost fields = split_char(rest, '/');
    assert(fields =~= seq![
        s.subrange(5, p1 as int),
        s.subrange(p1 + 1, p2 as int),
        s.subrange(p2 + 1, p3 as int),
        s.subrange(p3 + 1, n as int),
    ]);
    // HOSTNAME:PORT
    let h = find_char(&v, 5, p1, ':');
    proof {
        lemma_split_step(s, 5, p1 as int, h as int, ':');
    }
    if h == p1 {
        return false;
    }
    let h2 = find_char(&v, h + 1, p1, ':');
    proof {
        lemma_split_step(s, h + 1, p1 as int, h2 as int, ':');
        if h2 < p1 {
            lemma_split_nonempty(s.subrange(h2 + 1, p1 as int), ':');
        }
    }
    if h2 < p1 {
        return false;
    }
    if h - 5 < 2 || h - 5 > 127 {
        return false;
    }
    if !is_canonical_int_at(&v, h + 1, p1, 0, 65535) {
        return false;
    }
    assert(valid_host_port(fields[0]));
    // WORLD
    if p2 - (p1 + 1) < 1 || p2 - (p1 + 1) > 15 {
        return false;
    }
    // raw
    if p3 - (p2 + 1) != 3 {
        assert(fields[2].len() != seq!['r', 'a', 'w'].len());
        return false;
    }
    if !(v[p2 + 1] == 'r' && v[p2 + 2] == 'a' && v[p2 + 3] == 'w') {
        assert(fields[2] != seq!['r', 'a', 'w']) by {
            if fields[2] == seq!['r', 'a', 'w'] {
                assert(fields[2][0] == s[p2 + 1]);
                assert(fields[2][1] == s[p2 + 2]);
                assert(fields[2][2] == s[p2 + 3]);
            }
        }
        return false;
    }
    assert(fields[2] =~= seq!['r', 'a', 'w']);
    // X,Y,Z,R
    let c1 = find_char(&v, p3 + 1, n, ',');
    proof {
        lemma_split_step(s, p3 + 1, n as int, c1 as int, ',');
    }
    if c1 == n {
        return false;
    }
    let c2 = find_char(&v, c1 + 1, n, ',');
    proof {
        lemma_split_step(s, c1 + 1, n as int, c2 as int, ',');
    }
    if c2 == n {
        return false;
    }
    let c3 = find_char(&v, c2 + 1, n, ',');
    proof {
        lemma_split_step(s, c2 + 1, n as int, c3 as int, ',');
    }
    if c3 == n {
        return false;
    }
    let c4 = find_char(&v, c3 + 1, n, ',');
    proof {
        lemma_split_step(s, c3 + 1, n as int, c4 as int, ',');
        if c4 < n {
            lemma_split_nonempty(s.subrange(c4 + 1, n as int), ',');
        }
    }
    if c4 < n {
        return false;
    }
    let ghost coords = split_char(fields[3], ',');
    assert(coords =~= seq![
        s.subrange(p3 + 1, c1 as int),
        s.subrange(c1 + 1, c2 as int),
        s.subrange(c2 + 1, c3 as int),
        s.subrange(c3 + 1, n as int),
    ]);
    let lo: i64 = -0x8000_0000;
    let hi: i64 = 0x7fff_ffff;
    if !is_canonical_int_at(&v, p3 + 1, c1, lo, hi) {
        return false;
    }
    if !is_canonical_int_at(&v, c1 + 1, c2, lo, hi) {
        return false;
    }
    if !is_canonical_int_at(&v, c2 + 1, c3, lo, hi) {
        return false;
    }
    if !is_canonical_int_at(&v, c3 + 1, n, lo, hi) {
        return false;
    }
    assert(valid_coordinates(fields[3])) by {
        assert forall|i: int| 0 <= i < 4 implies is_canonical_int(
            #[trigger] coords[i],
            -0x8000_0000,
            0x7fff_ffff,
        ) by {
            if i == 0 {
            } else if i == 1 {
            } else if i == 2 {
            } else {
            }
        }
    }
    true
}

/// No character of `s` is `c`.
pub open spec fn lacks(s: Seq<char>, c: char) -> bool {
    forall|i: int| 0 <= i < s.len() ==> s[i] != c
}

/// Splitting at `c` a text that starts with a piece free of `c` and then `c` gives
/// that piece, then the pieces of the rest.
pub proof fn lemma_split_sep(x: Seq<char>, c: char, y: Seq<char>)
    requires
        lacks(x, c),
    ensures
        split_char(x + seq![c] + y, c) == seq![x] + split_char(y, c),
{
    let s = x + seq![c] + y;
    assert(s[x.len() as int] == c);
    assert forall|i: int| 0 <= i < x.len() implies s[i] != c by {
        assert(s[i] == x[i]);
    }
    lemma_split_at_first(s, c, x.len() as int);
    assert(s.take(x.len() as int) =~= x);
    assert(s.skip(x.len() as int + 1) =~= y);
}

/// A concatenation lacks a character exactly when both parts do, and is ASCII exactly
/// when both parts are.
pub proof fn lemma_concat_chars(a: Seq<char>, b: Seq<char>, c: char)
    ensures
        lacks(a + b, c) == (lacks(a, c) && lacks(b, c)),
        all_ascii(a + b) == (all_ascii(a) && all_ascii(b)),
{
    let s = a + b;
    if lacks(a, c) && lacks(b, c) {
        assert forall|i: int| 0 <= i < s.len() implies s[i] != c by {
            if i < a.len() {
                assert(s[i] == a[i]);
            } else {
                assert(s[i] == b[i - a.len()]);
            }
        }
    }
    if lacks(s, c) {
        assert forall|i: int| 0 <= i < a.len() implies a[i] != c by {
            assert(s[i] == a[i]);
        }
        assert forall|i: int| 0 <= i < b.len() implies b[i] != c by {
            assert(s[a.len() + i] == b[i]);
        }
    }
    if all_ascii(a) && all_ascii(b) {
        assert forall|i: int| 0 <= i < s.len() implies #[trigger] s[i] <= '\u{7f}' by {
            if i < a.len() {
                assert(s[i] == a[i]);
            } else {
                assert(s[i] == b[i - a.len()]);
            }
        }
    }
    if all_ascii(s) {
        assert forall|i: int| 0 <= i < a.len() implies #[trigger] a[i] <= '\u{7f}' by {
            assert(s[i] == a[i]);
        }
        assert forall|i: int| 0 <= i < b.len() implies #[trigger] b[i] <= '\u{7f}' by {
            assert(s[a.len() + i] == b[i]);
        }
    }
}

/// The decimal writing of an integer is nonempty, ASCII, and holds none of the
/// separators of a URI; it starts with a digit when the integer is not negative.
pub proof fn lemma_decimal_chars(n: int)
    ensures
        decimal_of(n).len() > 0,
        n >= 0 ==> is_digit(decimal_of(n)[0]),
        all_ascii(decimal_of(n)),
        lacks(decimal_of(n), ':'),
        lacks(decimal_of(n), '/'),
        lacks(decimal_of(n), ','),
{
    let t = decimal_of(n);
    if n < 0 {
        let d = digits_of((-n) as nat);
        lemma_digits_of_canonical((-n) as nat);
        assert(t == seq!['-'] + d);
        assert forall|i: int| 0 <= i < t.len() implies is_digit(#[trigger] t[i]) || t[i] == '-' by {
            if i > 0 {
                assert(t[i] == d[i - 1]);
            }
        }
    } else {
        lemma_digits_of_canonical(n as nat);
    }
    assert forall|i: int| 0 <= i < t.len() implies #[trigger] t[i] <= '\u{7f}' && t[i] != ':'
        && t[i] != '/' && t[i] != ',' by {
        assert(is_digit(t[i]) || t[i] == '-');
    }
}

/// The teleport URI that names location (`x`, `y`, `z`, `r`) of world `world` on the
/// universe at `host`:`port`.
pub open spec fn teleport_uri(host: Seq<char>, port: u16, world: Seq<char>, x: i32, y: i32, z: i32, r: i32) -> Seq<char> {
    seq!['a', 'w', ':', '/', '/'] + host_port_text(host, port) + seq!['/'] + world + seq![
        '/',
        'r',
        'a',
        'w',
        '/',
    ] + coordinates_text(x, y, z, r)
}

/// "HOST:PORT".
pub open spec fn host_port_text(host: Seq<char>, port: u16) -> Seq<char> {
    host + seq![':'] + decimal_of(port as int)
}

/// "X,Y,Z,R".
pub open spec fn coordinates_text(x: i32, y: i32, z: i32, r: i32) -> Seq<char> {
    decimal_of(x as int) + seq![','] + decimal_of(y as int) + seq![','] + decimal_of(z as int)
        + seq![','] + decimal_of(r as int)
}

proof fn lemma_coordinates_text(x: i32, y: i32, z: i32, r: i32)
    ensures
        valid_coordinates(coordinates_text(x, y, z, r)),
        lacks(coordinates_text(x, y, z, r), '/'),
        lacks(coordinates_text(x, y, z, r), ':'),
        all_ascii(coordinates_text(x, y, z, r)),
{
    let dx = decimal_of(x as int);
    let dy = decimal_of(y as int);
    let dz = decimal_of(z as int);
    let dr = decimal_of(r as int);
    lemma_decimal_chars(x as int);
    lemma_decimal_chars(y as int);
    lemma_decimal_chars(z as int);
    lemma_decimal_chars(r as int);
    let comma = seq![','];
    let t3 = dz + comma + dr;
    let t2 = dy + comma + t3;
    let coords = dx + comma + t2;
    assert(coords =~= coordinates_text(x, y, z, r));
    lemma_split_without_separator(dr, ',');
    lemma_split_sep(dz, ',', dr);
    lemma_split_sep(dy, ',', t3);
    lemma_split_sep(dx, ',', t2);
    let fc = split_char(coords, ',');
    assert(fc =~= seq![dx, dy, dz, dr]);
    assert forall|i: int| 0 <= i < 4 implies is_canonical_int(
        #[trigger] fc[i],
        -0x8000_0000,
        0x7fff_ffff,
    ) by {
        if i == 0 {
            assert(decimal_of(x as int) == fc[0]);
        } else if i == 1 {
            assert(decimal_of(y as int) == fc[1]);
        } else if i == 2 {
            assert(decimal_of(z as int) == fc[2]);
        } else {
            assert(decimal_of(r as int) == fc[3]);
        }
    }
    assert(lacks(comma, '/') && lacks(comma, ':') && all_ascii(comma));
    lemma_concat_chars(dz, comma, '/');
    lemma_concat_chars(dz + comma, dr, '/');
    lemma_concat_chars(dy, comma, '/');
    lemma_concat_chars(dy + comma, t3, '/');
    lemma_concat_chars(dx, comma, '/');
    lemma_concat_chars(dx + comma, t2, '/');
    lemma_concat_chars(dz, comma, ':');
    lemma_concat_chars(dz + comma, dr, ':');
    lemma_concat_chars(dy, comma, ':');
    lemma_concat_chars(dy + comma, t3, ':');
    lemma_concat_chars(dx, comma, ':');
    lemma_concat_chars(dx + comma, t2, ':');
}

proof fn lemma_host_port_text(host: Seq<char>, port: u16)
    requires
        2 <= host.len() <= 127,
        all_ascii(host),
        lacks(host, ':'),
        lacks(host, '/'),
    ensures
        valid_host_port(host_port_text(host, port)),
        lacks(host_port_text(host, port), '/'),
        all_ascii(host_port_text(host, port)),
        host_port_text(host, port)[host.len() as int] == ':',
        is_digit(host_port_text(host, port)[host.len() as int + 1]),
        forall|i: int|
            0 <= i < host_port_text(host, port).len() && i != host.len() ==> #[trigger] host_port_text(
                host,
                port,
            )[i] != ':',
{
    let p = decimal_of(port as int);
    let colon = seq![':'];
    let hp = host + colon + p;
    lemma_decimal_chars(port as int);
    lemma_split_without_separator(p, ':');
    lemma_split_sep(host, ':', p);
    assert(split_char(hp, ':') =~= seq![host, p]);
    assert(is_canonical_int(p, 0, 65535)) by {
        assert(decimal_of(port as int) == p);
    }
    lemma_concat_chars(host, colon, '/');
    lemma_concat_chars(host + colon, p, '/');
    assert(lacks(colon, '/') && all_ascii(colon));
    assert(hp[host.len() as int + 1] == p[0]);
    assert forall|i: int| 0 <= i < hp.len() && i != host.len() implies #[trigger] hp[i] != ':' by {
        if i < host.len() {
            assert(hp[i] == host[i]);
        } else {
            assert(hp[i] == p[i - host.len() - 1]);
        }
    }
}

/// Every invite URI that a browser writes for a location is accepted: an ASCII host
/// name of 2 to 127 characters and a world name of 1 to 15, neither holding ':' or
/// '/', any port and any coordinates, as long as the whole fits in 255 characters.
pub proof fn law_teleport_uri_is_valid(
    host: Seq<char>,
    port: u16,
    world: Seq<char>,
    x: i32,
    y: i32,
    z: i32,
    r: i32,
)
    requires
        2 <= host.len() <= 127,
        1 <= world.len() <= 15,
        all_ascii(host),
        all_ascii(world),
        lacks(host, ':'),
        lacks(host, '/'),
        lacks(world, ':'),
        lacks(world, '/'),
        teleport_uri(host, port, world, x, y, z, r).len() <= 255,
    ensures
        is_valid_uri_text(teleport_uri(host, port, world, x, y, z, r)),
{
    let hp = host_port_text(host, port);
    let coords = coordinates_text(x, y, z, r);
    let raw = seq!['r', 'a', 'w'];
    let slash = seq!['/'];
    lemma_host_port_text(host, port);
    lemma_coordinates_text(x, y, z, r);
    let t3 = raw + slash + coords;
    let t2 = world + slash + t3;
    let rest = hp + slash + t2;
    let u = teleport_uri(host, port, world, x, y, z, r);
    assert(u =~= seq!['a', 'w', ':', '/', '/'] + rest);
    assert(u.take(5) =~= seq!['a', 'w', ':', '/', '/']);
    assert(u.skip(5) =~= rest);
    assert(lacks(raw, '/') && lacks(raw, ':') && all_ascii(raw) && all_ascii(slash));
    lemma_split_without_separator(coords, '/');
    lemma_split_sep(raw, '/', coords);
    lemma_split_sep(world, '/', t3);
    lemma_split_sep(hp, '/', t2);
    assert(split_char(rest, '/') =~= seq![hp, world, raw, coords]);
    assert(valid_location(rest));
    lemma_concat_chars(raw, slash, ':');
    lemma_concat_chars(raw + slash, coords, ':');
    lemma_concat_chars(world, slash, ':');
    lemma_concat_chars(world + slash, t3, ':');
    lemma_concat_chars(hp, slash, ':');
    lemma_concat_chars(hp + slash, t2, ':');
    lemma_concat_chars(seq!['a', 'w', ':', '/', '/'], rest, ':');
    assert(all_ascii(seq!['a', 'w', ':', '/', '/']));
    assert(all_ascii(u));
    assert(lacks(t2, ':'));
    assert(!has_scheme_separator(rest)) by {
        if has_scheme_separator(rest) {
            let i = choose|i: int|
                0 <= i && i + 3 <= rest.len() && #[trigger] rest[i] == ':' && rest[i + 1] == '/'
                    && rest[i + 2] == '/';
            if i < hp.len() {
                assert(rest[i] == hp[i]);
                assert(i == host.len());
                assert(rest[i + 1] == hp[i + 1]);
            } else if i == hp.len() {
            } else {
                assert(rest[i] == t2[i - hp.len() - 1]);
            }
        }
    }
}

} // verus!
