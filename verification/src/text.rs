//! Text building blocks: digit rendering and parsing, joining, padding.

use vstd::prelude::*;

verus! {

/// The character of a digit value below ten.
pub open spec fn digit_char(d: nat) -> char {
    (48 + d) as char
}

/// The digits of `n` written in `base` (2 to 10), most significant first, without leading zeros.
pub open spec fn spec_digits(n: nat, base: nat) -> Seq<char>
    recommends
        2 <= base <= 10,
    decreases n,
{
    if base < 2 || n < base {
        seq![digit_char(n)]
    } else {
        proof {
            lemma_div_decreases(n, base);
        }
        spec_digits(n / base, base).push(digit_char(n % base))
    }
}

/// Dividing by a base of at least two makes a positive number smaller.
pub proof fn lemma_div_decreases(n: nat, base: nat)
    requires
        base >= 2,
        n >= 1,
    ensures
        n / base < n,
{
    assert(n / base < n) by (nonlinear_arith)
        requires
            base >= 2,
            n >= 1,
    ;
}

/// Appends one character to a string (`String::push`).
#[verifier::external_body]
pub(crate) fn push_char(s: &mut String, c: char)
    ensures
        final(s)@ == old(s)@.push(c),
{
    s.push(c);
}

/// Appends the digits of `n` in `base` to `s`.
fn push_digits(s: &mut String, n: u64, base: u64)
    requires
        2 <= base <= 10,
    ensures
        final(s)@ == old(s)@ + spec_digits(n as nat, base as nat),
    decreases n,
{
    if n >= base {
        assert(n / base < n) by (nonlinear_arith)
            requires
                n >= base,
                base >= 2,
        ;
        push_digits(s, n / base, base);
    }
    let d = n % base;
    assert(d < 10);
    let c = (48u8 + d as u8) as char;
    assert(c == digit_char(n as nat % base as nat));
    let ghost before = s@;
    push_char(s, c);
    if n >= base {
        assert(s@ =~= old(s)@ + spec_digits(n as nat, base as nat));
    } else {
        proof { vstd::arithmetic::div_mod::lemma_small_mod(n as nat, base as nat); }
        assert(s@ =~= old(s)@ + spec_digits(n as nat, base as nat));
    }
}

/// Renders `n` in `base` (2 to 10), as `format!` does for decimal and octal.
pub fn u64_to_digits(n: u64, base: u64) -> (s: String)
    requires
        2 <= base <= 10,
    ensures
        s@ == spec_digits(n as nat, base as nat),
{
    let mut s = String::new();
    push_digits(&mut s, n, base);
    assert(s@ =~= spec_digits(n as nat, base as nat));
    s
}

/// The characters of a string, in order.
pub fn chars_of(s: &str) -> (v: Vec<char>)
    ensures
        v@ == s@,
{
    let mut v: Vec<char> = Vec::new();
    for c in it: s.chars()
        invariant
            v@ == it.seq().take(it.index() as int),
            it.seq() == s@,
    {
        v.push(c);
        assert(v@ =~= it.seq().take(it.index() + 1));
    }
    assert(v@ =~= s@);
    v
}

/// Appends the characters `cs[from..]` to `s`.
pub(crate) fn push_chars(s: &mut String, cs: &Vec<char>, from: usize)
    requires
        from <= cs.len(),
    ensures
        final(s)@ == old(s)@ + cs@.subrange(from as int, cs.len() as int),
{
    let mut i = from;
    while i < cs.len()
        invariant
            from <= i <= cs.len(),
            s@ == old(s)@ + cs@.subrange(from as int, i as int),
        decreases cs.len() - i,
    {
        push_char(s, cs[i]);
        i = i + 1;
        assert(s@ =~= old(s)@ + cs@.subrange(from as int, i as int));
    }
}

/// The parts, with `sep` between each two neighbours (`[String]::join`).
pub open spec fn spec_join(parts: Seq<Seq<char>>, sep: Seq<char>) -> Seq<char>
    decreases parts.len(),
{
    if parts.len() == 0 {
        Seq::empty()
    } else if parts.len() == 1 {
        parts[0]
    } else {
        spec_join(parts.drop_last(), sep) + sep + parts.last()
    }
}

/// The views of a list of strings.
pub open spec fn views(v: Seq<String>) -> Seq<Seq<char>> {
    v.map_values(|s: String| s@)
}

/// Joining a list that starts with `a`.
pub proof fn lemma_join_cons(a: Seq<char>, ps: Seq<Seq<char>>, sep: Seq<char>)
    ensures
        spec_join(seq![a] + ps, sep) == if ps.len() == 0 { a } else { a + sep + spec_join(ps, sep) },
    decreases ps.len(),
{
    let x = seq![a] + ps;
    if ps.len() == 0 {
        assert(x =~= seq![a]);
        assert(spec_join(x, sep) == x[0]);
    } else if ps.len() == 1 {
        assert(x.drop_last() =~= seq![a]);
        assert(x.last() == ps.last());
        assert(spec_join(x.drop_last(), sep) == a);
        assert(spec_join(x, sep) == spec_join(x.drop_last(), sep) + sep + x.last());
        assert(spec_join(ps, sep) == ps[0]);
    } else {
        lemma_join_cons(a, ps.drop_last(), sep);
        assert(x.drop_last() =~= seq![a] + ps.drop_last());
        assert(x.last() == ps.last());
        assert(spec_join(x, sep) == spec_join(x.drop_last(), sep) + sep + x.last());
        assert(spec_join(ps, sep) == spec_join(ps.drop_last(), sep) + sep + ps.last());
        assert(a + sep + spec_join(ps, sep) =~= a + sep + spec_join(ps.drop_last(), sep) + sep + ps.last());
    }
}

/// Views of concatenated lists.
pub proof fn lemma_views_add(a: Seq<String>, b: Seq<String>)
    ensures
        views(a + b) == views(a) + views(b),
{
    assert(views(a + b) =~= views(a) + views(b));
}

/// Joins `parts` with `sep` between each two neighbours.
pub fn join(parts: &Vec<String>, sep: &str) -> (r: String)
    ensures
        r@ == spec_join(views(parts@), sep@),
{
    let mut r = String::new();
    let mut i: usize = 0;
    while i < parts.len()
        invariant
            i <= parts.len(),
            r@ == spec_join(views(parts@).take(i as int), sep@),
        decreases parts.len() - i,
    {
        let ghost prefix = views(parts@).take(i as int);
        if i != 0 {
            r.append(sep);
        }
        r.append(parts[i].as_str());
        i = i + 1;
        assert(views(parts@).take(i as int).drop_last() =~= prefix);
        assert(views(parts@).take(i as int).last() == parts@[i - 1]@);
    }
    assert(views(parts@).take(parts.len() as int) =~= views(parts@));
    r
}

/// `n` spaces.
pub open spec fn spaces(n: nat) -> Seq<char> {
    Seq::new(n, |i: int| ' ')
}

/// A string of `n` spaces (`" ".repeat(n)`).
pub fn repeat_spaces(n: usize) -> (r: String)
    ensures
        r@ == spaces(n as nat),
{
    let mut r = String::new();
    let mut i: usize = 0;
    while i < n
        invariant
            i <= n,
            r@ == spaces(i as nat),
        decreases n - i,
    {
        push_char(&mut r, ' ');
        i = i + 1;
        assert(r@ =~= spaces(i as nat));
    }
    r
}

/// Strings compare equal exactly when their characters do.
pub fn str_equal(a: &str, b: &str) -> (r: bool)
    ensures
        r == (a@ == b@),
{
    let x = a.to_string();
    let y = b.to_string();
    x == y
}

/// Lexicographic order on character sequences, by code point (the order of `str`).
pub open spec fn seq_lt(a: Seq<char>, b: Seq<char>) -> bool
    decreases a.len(),
{
    if b.len() == 0 {
        false
    } else if a.len() == 0 {
        true
    } else if a[0] != b[0] {
        (a[0] as int) < (b[0] as int)
    } else {
        seq_lt(a.drop_first(), b.drop_first())
    }
}

/// The order is irreflexive.
pub proof fn lemma_seq_lt_irreflexive(a: Seq<char>)
    ensures
        !seq_lt(a, a),
    decreases a.len(),
{
    if a.len() > 0 {
        lemma_seq_lt_irreflexive(a.drop_first());
    }
}

/// The order is transitive.
pub proof fn lemma_seq_lt_transitive(a: Seq<char>, b: Seq<char>, c: Seq<char>)
    requires
        seq_lt(a, b),
        seq_lt(b, c),
    ensures
        seq_lt(a, c),
    decreases a.len(),
{
    if a.len() > 0 && b.len() > 0 && c.len() > 0 && a[0] == b[0] && b[0] == c[0] {
        lemma_seq_lt_transitive(a.drop_first(), b.drop_first(), c.drop_first());
    }
}

/// Any two different sequences are ordered one way or the other.
pub proof fn lemma_seq_lt_total(a: Seq<char>, b: Seq<char>)
    ensures
        a == b || seq_lt(a, b) || seq_lt(b, a),
    decreases a.len(),
{
    if a.len() > 0 && b.len() > 0 && a[0] == b[0] {
        lemma_seq_lt_total(a.drop_first(), b.drop_first());
        if a.drop_first() == b.drop_first() {
            assert(a =~= seq![a[0]] + a.drop_first());
            assert(b =~= seq![b[0]] + b.drop_first());
        }
    } else if a.len() == 0 && b.len() == 0 {
        assert(a =~= b);
    } else if a.len() > 0 && b.len() > 0 {
        assert((a[0] as int) != (b[0] as int));
    }
}

/// Whether `a` comes before `b` in the order of strings.
pub fn str_less(a: &str, b: &str) -> (r: bool)
    ensures
        r == seq_lt(a@, b@),
{
    let x = chars_of(a);
    let y = chars_of(b);
    let mut i: usize = 0;
    assert(x@.skip(0) =~= x@);
    assert(y@.skip(0) =~= y@);
    while i < x.len() && i < y.len() && x[i] == y[i]
        invariant
            i <= x.len(),
            i <= y.len(),
            seq_lt(x@, y@) == seq_lt(x@.skip(i as int), y@.skip(i as int)),
        decreases x.len() - i,
    {
        assert(x@.skip(i as int).drop_first() =~= x@.skip(i + 1));
        assert(y@.skip(i as int).drop_first() =~= y@.skip(i + 1));
        i = i + 1;
    }
    if i == y.len() {
        false
    } else if i == x.len() {
        true
    } else {
        x[i] < y[i]
    }
}

/// The decimal text of an integer, with a leading `-` when negative.
pub open spec fn int_text(i: int) -> Seq<char> {
    if i < 0 {
        seq!['-'] + spec_digits((-i) as nat, 10)
    } else {
        spec_digits(i as nat, 10)
    }
}

/// Renders an integer in decimal (`i64::to_string`).
pub fn i64_to_decimal(i: i64) -> (s: String)
    ensures
        s@ == int_text(i as int),
{
    if i < 0 {
        let wide: i128 = i as i128;
        let magnitude: u64 = (-wide) as u64;
        let mut s = String::new();
        push_char(&mut s, '-');
        push_digits(&mut s, magnitude, 10);
        assert(s@ =~= int_text(i as int));
        s
    } else {
        u64_to_digits(i as u64, 10)
    }
}

/// Joins a relative path onto a base path, as `Path::join` does: an absolute `rel` replaces
/// the base; otherwise a `/` separates the two unless the base is empty or already ends in one.
pub open spec fn spec_path_join(base: Seq<char>, rel: Seq<char>) -> Seq<char> {
    if rel.len() > 0 && rel[0] == '/' {
        rel
    } else if base.len() == 0 {
        rel
    } else if base.last() == '/' {
        base + rel
    } else {
        base + seq!['/'] + rel
    }
}

/// Joins `rel` onto `base` (`Path::join`).
pub fn path_join(base: &str, rel: &str) -> (r: String)
    ensures
        r@ == spec_path_join(base@, rel@),
{
    let rel_chars = chars_of(rel);
    if rel_chars.len() > 0 && rel_chars[0] == '/' {
        return rel.to_string();
    }
    let base_chars = chars_of(base);
    if base_chars.len() == 0 {
        return rel.to_string();
    }
    let mut r = base.to_string();
    if base_chars[base_chars.len() - 1] != '/' {
        push_char(&mut r, '/');
    }
    r.append(rel);
    r
}

/// `a` followed by `b`.
pub fn concat(a: &str, b: &str) -> (r: String)
    ensures
        r@ == a@ + b@,
{
    let mut r = a.to_string();
    r.append(b);
    r
}

/// The pieces of `s` between spaces, empty pieces included (`str::split(' ')`).
pub open spec fn split_spaces(s: Seq<char>) -> Seq<Seq<char>>
    decreases s.len(),
{
    if s.len() == 0 {
        seq![Seq::empty()]
    } else if s.last() == ' ' {
        split_spaces(s.drop_last()).push(Seq::empty())
    } else {
        let p = split_spaces(s.drop_last());
        p.update(p.len() - 1, p.last().push(s.last()))
    }
}

/// There is always at least one piece.
pub proof fn lemma_split_nonempty(s: Seq<char>)
    ensures
        split_spaces(s).len() >= 1,
    decreases s.len(),
{
    if s.len() > 0 {
        lemma_split_nonempty(s.drop_last());
    }
}

/// Joining the pieces with spaces gives the text back.
pub proof fn lemma_split_join(s: Seq<char>)
    ensures
        spec_join(split_spaces(s), seq![' ']) == s,
    decreases s.len(),
{
    if s.len() > 0 {
        let t = s.drop_last();
        lemma_split_join(t);
        lemma_split_nonempty(t);
        let p = split_spaces(t);
        if s.last() == ' ' {
            assert(split_spaces(s).drop_last() =~= p);
            assert(s =~= t + seq![' '] + Seq::<char>::empty());
        } else {
            let q = split_spaces(s);
            assert(q.len() == p.len());
            if p.len() == 1 {
                assert(spec_join(q, seq![' ']) == q[0]);
                assert(spec_join(p, seq![' ']) == p[0]);
                assert(s =~= p[0].push(s.last()));
            } else {
                assert(q.drop_last() =~= p.drop_last());
                assert(spec_join(q, seq![' ']) == spec_join(p.drop_last(), seq![' ']) + seq![' '] + q.last());
                assert(spec_join(p, seq![' ']) == spec_join(p.drop_last(), seq![' ']) + seq![' '] + p.last());
                assert(s =~= t.push(s.last()));
                assert(s =~= spec_join(p.drop_last(), seq![' ']) + seq![' '] + p.last().push(s.last()));
            }
        }
    }
}

/// Splits `s` at every space (`s.split(' ')`).
pub fn split_on_spaces(s: &str) -> (r: Vec<String>)
    ensures
        views(r@) == split_spaces(s@),
{
    let cs = chars_of(s);
    let mut pieces: Vec<String> = Vec::new();
    let mut current = String::new();
    let mut i: usize = 0;
    while i < cs.len()
        invariant
            i <= cs@.len(),
            cs@ == s@,
            views(pieces@).push(current@) == split_spaces(cs@.take(i as int)),
        decreases cs.len() - i,
    {
        let ghost before = views(pieces@).push(current@);
        assert(cs@.take(i + 1).drop_last() =~= cs@.take(i as int));
        if cs[i] == ' ' {
            let done = current;
            proof {
                crate::text::lemma_views_push_text(pieces@, done);
            }
            pieces.push(done);
            current = String::new();
            assert(views(pieces@).push(current@) =~= before.push(Seq::empty()));
        } else {
            push_char(&mut current, cs[i]);
            assert(views(pieces@).push(current@) =~= before.update(before.len() - 1, before.last().push(cs@[i as int])));
        }
        i = i + 1;
    }
    assert(cs@.take(cs@.len() as int) =~= cs@);
    let ghost all = views(pieces@).push(current@);
    proof {
        crate::text::lemma_views_push_text(pieces@, current);
    }
    pieces.push(current);
    pieces
}

/// The position of the first space, if any.
pub open spec fn first_space(s: Seq<char>) -> Option<int>
    decreases s.len(),
{
    if s.len() == 0 {
        None
    } else if s[0] == ' ' {
        Some(0)
    } else {
        match first_space(s.drop_first()) {
            Some(i) => Some(i + 1),
            None => None,
        }
    }
}

/// The first space is a space with none before it; without one there is no space.
pub proof fn lemma_first_space(s: Seq<char>)
    ensures
        first_space(s) matches Some(i) ==> 0 <= i < s.len() && s[i] == ' ' && forall|j: int| 0 <= j < i ==> s[j] != ' ',
        first_space(s) is None ==> forall|j: int| 0 <= j < s.len() ==> s[j] != ' ',
    decreases s.len(),
{
    if s.len() > 0 && s[0] != ' ' {
        lemma_first_space(s.drop_first());
        assert forall|j: int| 1 <= j < s.len() implies s[j] == s.drop_first()[j - 1] by {}
    }
}

/// A space with none before it is the first space.
pub proof fn lemma_first_space_at(s: Seq<char>, i: int)
    requires
        0 <= i < s.len(),
        s[i] == ' ',
        forall|j: int| 0 <= j < i ==> s[j] != ' ',
    ensures
        first_space(s) == Some(i),
    decreases i,
{
    if i > 0 {
        lemma_first_space_at(s.drop_first(), i - 1);
    }
}

/// No space means no first space.
pub proof fn lemma_no_space(s: Seq<char>)
    requires
        forall|j: int| 0 <= j < s.len() ==> s[j] != ' ',
    ensures
        first_space(s) is None,
    decreases s.len(),
{
    if s.len() > 0 {
        lemma_no_space(s.drop_first());
    }
}

/// The first space, found.
pub fn find_space(cs: &Vec<char>) -> (r: Option<usize>)
    ensures
        r matches Some(i) ==> first_space(cs@) == Some(i as int) && i < cs@.len(),
        r is None ==> first_space(cs@) is None,
{
    let mut i: usize = 0;
    while i < cs.len()
        invariant
            i <= cs@.len(),
            forall|j: int| 0 <= j < i ==> cs@[j] != ' ',
        decreases cs.len() - i,
    {
        if cs[i] == ' ' {
            proof {
                lemma_first_space_at(cs@, i as int);
            }
            return Some(i);
        }
        i = i + 1;
    }
    proof {
        lemma_no_space(cs@);
    }
    None
}

/// The characters `cs[from..to]` as a string.
pub fn string_of(cs: &Vec<char>, from: usize, to: usize) -> (r: String)
    requires
        from <= to <= cs@.len(),
    ensures
        r@ == cs@.subrange(from as int, to as int),
{
    let mut r = String::new();
    let mut i = from;
    while i < to
        invariant
            from <= i <= to <= cs@.len(),
            r@ == cs@.subrange(from as int, i as int),
        decreases to - i,
    {
        push_char(&mut r, cs[i]);
        i = i + 1;
        assert(r@ =~= cs@.subrange(from as int, i as int));
    }
    r
}

/// Views of a pushed list.
pub proof fn lemma_views_push_text(v: Seq<String>, s: String)
    ensures
        views(v.push(s)) == views(v).push(s@),
{
    assert(views(v.push(s)) =~= views(v).push(s@));
}

/// Whether every character is an octal digit.
pub open spec fn all_octal(ds: Seq<char>) -> bool {
    forall|i: int| 0 <= i < ds.len() ==> '0' <= #[trigger] ds[i] <= '7'
}

/// The value of octal digits.
pub open spec fn octal_value(ds: Seq<char>) -> nat
    decreases ds.len(),
{
    if ds.len() == 0 {
        0
    } else {
        octal_value(ds.drop_last()) * 8 + ((ds.last() as int - 48) as nat)
    }
}

/// What `u32::from_str_radix(s, 8)` accepts: an optional `+`, then at least one octal digit,
/// of a value that fits.
pub open spec fn spec_parse_octal(s: Seq<char>) -> Option<u32> {
    let ds = if s.len() > 0 && s[0] == '+' { s.drop_first() } else { s };
    if ds.len() > 0 && all_octal(ds) && octal_value(ds) <= u32::MAX {
        Some(octal_value(ds) as u32)
    } else {
        None
    }
}

/// More digits never make a smaller value.
pub proof fn lemma_octal_grows(ds: Seq<char>, k: int)
    requires
        0 <= k <= ds.len(),
        all_octal(ds),
    ensures
        octal_value(ds.take(k)) <= octal_value(ds),
    decreases ds.len() - k,
{
    if k < ds.len() {
        lemma_octal_grows(ds, k + 1);
        assert(ds.take(k + 1).drop_last() =~= ds.take(k));
        assert(ds.take(k + 1).last() == ds[k]);
        assert('0' <= ds[k]);
        assert(octal_value(ds.take(k + 1)) == octal_value(ds.take(k)) * 8 + ((ds[k] as int - 48) as nat));
    } else {
        assert(ds.take(k) =~= ds);
    }
}

/// Parses octal digits (`u32::from_str_radix(s, 8)`).
pub fn parse_octal(s: &str) -> (r: Option<u32>)
    ensures
        r == spec_parse_octal(s@),
{
    let cs = chars_of(s);
    let start: usize = if cs.len() > 0 && cs[0] == '+' { 1 } else { 0 };
    let ghost ds = if s@.len() > 0 && s@[0] == '+' { s@.drop_first() } else { s@ };
    assert(ds =~= cs@.subrange(start as int, cs@.len() as int));
    if start >= cs.len() {
        return None;
    }
    let mut value: u64 = 0;
    let mut i = start;
    while i < cs.len()
        invariant
            start <= i <= cs@.len(),
            ds == cs@.subrange(start as int, cs@.len() as int),
            ds == (if s@.len() > 0 && s@[0] == '+' { s@.drop_first() } else { s@ }),
            ds.len() > 0,
            all_octal(ds.take(i - start)),
            value == octal_value(ds.take(i - start)),
            value <= u32::MAX,
        decreases cs.len() - i,
    {
        let c = cs[i];
        assert(ds.take(i - start + 1).drop_last() =~= ds.take(i - start));
        assert(ds.take(i - start + 1).last() == c);
        assert(ds[i - start] == c);
        if c < '0' || c > '7' {
            assert(!('0' <= ds[i - start] <= '7'));
            assert(!all_octal(ds));
            assert(spec_parse_octal(s@) is None);
            return None;
        }
        let d: u64 = (c as u32 - 48) as u64;
        let next = value * 8 + d;
        assert(all_octal(ds.take(i - start + 1)));
        assert(octal_value(ds.take(i - start + 1)) == next);
        if next > 0xffff_ffff {
            proof {
                if all_octal(ds) {
                    lemma_octal_grows(ds, i - start + 1);
                }
            }
            assert(spec_parse_octal(s@) is None);
            return None;
        }
        value = next;
        i = i + 1;
    }
    assert(ds.take(i - start) =~= ds);
    Some(value as u32)
}

/// Digits in base eight are octal digits.
pub proof fn lemma_digits_octal(n: nat)
    ensures
        all_octal(spec_digits(n, 8)),
        octal_value(spec_digits(n, 8)) == n,
        spec_digits(n, 8).len() > 0,
        spec_digits(n, 8)[0] != '+',
    decreases n,
{
    if n >= 8 {
        lemma_div_decreases(n, 8);
        lemma_digits_octal(n / 8);
        let p = spec_digits(n / 8, 8);
        assert(spec_digits(n, 8).drop_last() =~= p);
        assert(spec_digits(n, 8)[0] == p[0]);
        vstd::arithmetic::div_mod::lemma_fundamental_div_mod(n as int, 8);
        assert(((48 + n % 8) as char) as int == 48 + n % 8);
        assert(octal_value(spec_digits(n, 8)) == octal_value(p) * 8 + n % 8);
        assert(octal_value(p) * 8 + n % 8 == n);
    } else {
        assert(((48 + n) as char) as int == 48 + n);
        assert(spec_digits(n, 8) == seq![digit_char(n)]);
        assert(spec_digits(n, 8).drop_last() =~= Seq::<char>::empty());
        assert(octal_value(Seq::<char>::empty()) == 0);
    }
}

/// Reading back the octal text of a number gives the number.
pub proof fn lemma_octal_roundtrip(n: u32)
    ensures
        spec_parse_octal(spec_digits(n as nat, 8)) == Some(n),
{
    lemma_digits_octal(n as nat);
}

/// Whether a character is an ASCII capital letter.
pub open spec fn is_capital(c: char) -> bool {
    'A' <= c && c <= 'Z'
}

/// The lower-case form of an ASCII letter; other characters stay.
pub open spec fn ascii_lower(c: char) -> char {
    if is_capital(c) {
        ((c as int) + 32) as char
    } else {
        c
    }
}

/// The rest of a name in kebab case: a `-` before each capital, every letter lower case.
pub open spec fn kebab_rest(s: Seq<char>) -> Seq<char>
    decreases s.len(),
{
    if s.len() == 0 {
        Seq::empty()
    } else {
        (if is_capital(s[0]) {
            seq!['-', ascii_lower(s[0])]
        } else {
            seq![s[0]]
        }) + kebab_rest(s.drop_first())
    }
}

/// A PascalCase name in kebab case (`NotifyReload` is `notify-reload`).
pub open spec fn kebab_case(s: Seq<char>) -> Seq<char> {
    if s.len() == 0 {
        Seq::empty()
    } else {
        seq![ascii_lower(s[0])] + kebab_rest(s.drop_first())
    }
}

/// A name with every ASCII letter in lower case.
pub open spec fn lower_case(s: Seq<char>) -> Seq<char> {
    s.map_values(|c: char| ascii_lower(c))
}

/// The upper-case form of an ASCII letter; other characters stay.
pub open spec fn ascii_upper(c: char) -> char {
    if 'a' <= c && c <= 'z' {
        ((c as int) - 32) as char
    } else {
        c
    }
}

/// A name with every ASCII letter in upper case.
pub open spec fn upper_case(s: Seq<char>) -> Seq<char> {
    s.map_values(|c: char| ascii_upper(c))
}

} // verus!
