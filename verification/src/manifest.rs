//! Resource manifests of the server's scripts: the load order a manifest
//! declares, and which script patterns name a whole directory.
//!
//! A manifest is a Lua file. Its load order is read without running it: the
//! first line of the form `load_order = <integer>` (blanks around, commas
//! after the number allowed) gives it, and a manifest without such a line
//! loads at order 100.
use vstd::prelude::*;
use vstd::string::StrSliceExecFns;

verus! {

/// Load order of a manifest that declares none.
pub const DEFAULT_LOAD_ORDER: i64 = 100;

/// White space as the standard library's `trim` sees it (Unicode White_Space).
pub open spec fn is_white(c: char) -> bool {
    let v = c as int;
    ||| 0x09 <= v <= 0x0d
    ||| v == 0x20
    ||| v == 0x85
    ||| v == 0xa0
    ||| v == 0x1680
    ||| 0x2000 <= v <= 0x200a
    ||| v == 0x2028
    ||| v == 0x2029
    ||| v == 0x202f
    ||| v == 0x205f
    ||| v == 0x3000
}

/// `s` without its leading white space.
pub open spec fn trim_start(s: Seq<char>) -> Seq<char>
    decreases s.len(),
{
    if s.len() > 0 && is_white(s[0]) {
        trim_start(s.drop_first())
    } else {
        s
    }
}

/// `s` without its trailing white space.
pub open spec fn trim_end(s: Seq<char>) -> Seq<char>
    decreases s.len(),
{
    if s.len() > 0 && is_white(s.last()) {
        trim_end(s.drop_last())
    } else {
        s
    }
}

/// `s` without white space at either end.
pub open spec fn trim(s: Seq<char>) -> Seq<char> {
    trim_end(trim_start(s))
}

/// `s` without its trailing commas.
pub open spec fn trim_end_commas(s: Seq<char>) -> Seq<char>
    decreases s.len(),
{
    if s.len() > 0 && s.last() == ',' {
        trim_end_commas(s.drop_last())
    } else {
        s
    }
}

pub open spec fn is_digit(c: char) -> bool {
    '0' as int <= c as int <= '9' as int
}

/// Decimal value of a string of digits.
pub open spec fn digits_value(s: Seq<char>) -> int
    decreases s.len(),
{
    if s.len() == 0 {
        0
    } else {
        digits_value(s.drop_last()) * 10 + (s.last() as int - '0' as int)
    }
}

/// `s` begins with a sign.
pub open spec fn has_sign(s: Seq<char>) -> bool {
    s.len() > 0 && (s[0] == '+' || s[0] == '-')
}

/// The digits of a number: `s` without its sign.
pub open spec fn magnitude(s: Seq<char>) -> Seq<char> {
    if has_sign(s) {
        s.drop_first()
    } else {
        s
    }
}

pub open spec fn all_digits(d: Seq<char>) -> bool {
    forall|i: int| 0 <= i < d.len() ==> is_digit(#[trigger] d[i])
}

/// The value of a signed decimal number.
pub open spec fn signed_value(s: Seq<char>) -> int {
    if s.len() > 0 && s[0] == '-' {
        -digits_value(magnitude(s))
    } else {
        digits_value(magnitude(s))
    }
}

/// A 64-bit integer in decimal, as the standard library reads one: an
/// optional sign, then at least one digit, and a value in range.
pub open spec fn parse_i64(s: Seq<char>) -> Option<i64> {
    if magnitude(s).len() > 0 && all_digits(magnitude(s)) && i64::MIN <= signed_value(s) <= i64::MAX {
        Some(signed_value(s) as i64)
    } else {
        None
    }
}

pub open spec fn load_order_word() -> Seq<char> {
    seq!['l', 'o', 'a', 'd', '_', 'o', 'r', 'd', 'e', 'r']
}

/// The load order a single line declares, if it declares one.
pub open spec fn line_load_order(line: Seq<char>) -> Option<i64> {
    let l = trim(line);
    let w = load_order_word();
    if l.len() >= w.len() && l.take(w.len() as int) == w {
        let after = trim_start(l.skip(w.len() as int));
        let value = if after.len() > 0 && after[0] == '=' { after.drop_first() } else { Seq::empty() };
        parse_i64(trim(trim_end_commas(trim(value))))
    } else {
        None
    }
}

/// The pieces of `t` between line feeds, in order (an empty text is one
/// empty piece).
pub open spec fn split_lines(t: Seq<char>) -> Seq<Seq<char>>
    decreases t.len(),
{
    if t.len() == 0 {
        seq![Seq::empty()]
    } else {
        let rest = split_lines(t.drop_last());
        if t.last() == '\n' {
            rest.push(Seq::empty())
        } else {
            rest.update(rest.len() - 1, rest.last().push(t.last()))
        }
    }
}

/// The first load order that one of `lines` declares.
pub open spec fn first_load_order(lines: Seq<Seq<char>>) -> Option<i64>
    decreases lines.len(),
{
    if lines.len() == 0 {
        None
    } else if line_load_order(lines[0]) is Some {
        line_load_order(lines[0])
    } else {
        first_load_order(lines.drop_first())
    }
}

/// The load order of a manifest with text `t`.
pub open spec fn spec_load_order(t: Seq<char>) -> i64 {
    match first_load_order(split_lines(t)) {
        Some(n) => n,
        None => DEFAULT_LOAD_ORDER,
    }
}

proof fn lemma_split_lines_nonempty(t: Seq<char>)
    ensures
        split_lines(t).len() >= 1,
    decreases t.len(),
{
    if t.len() > 0 {
        lemma_split_lines_nonempty(t.drop_last());
    }
}

proof fn lemma_first_load_order_push(lines: Seq<Seq<char>>, l: Seq<char>)
    requires
        forall|k: int| 0 <= k < lines.len() ==> line_load_order(#[trigger] lines[k]) is None,
    ensures
        first_load_order(lines.push(l)) == line_load_order(l),
        first_load_order(lines) is None,
    decreases lines.len(),
{
    if lines.len() > 0 {
        let rest = lines.drop_first();
        assert forall|k: int| 0 <= k < rest.len() implies line_load_order(#[trigger] rest[k]) is None by {
            assert(rest[k] == lines[k + 1]);
        }
        lemma_first_load_order_push(rest, l);
        assert(lines.push(l).drop_first() =~= rest.push(l));
        assert(line_load_order(lines[0]) is None);
        assert(lines.push(l)[0] == lines[0]);
    } else {
        assert(lines.push(l).drop_first() =~= Seq::<Seq<char>>::empty());
        assert(lines.push(l)[0] == l);
        assert(first_load_order(Seq::<Seq<char>>::empty()) is None);
    }
}

/// Lines that are complete in a prefix of a text are lines of the whole text.
proof fn lemma_split_prefix(t: Seq<char>, m: int, j: int)
    requires
        0 <= m <= j <= t.len(),
    ensures
        split_lines(t.take(j)).len() >= split_lines(t.take(m)).len(),
        forall|k: int|
            0 <= k < split_lines(t.take(m)).len() - 1 ==> #[trigger] split_lines(t.take(j))[k] == split_lines(
                t.take(m),
            )[k],
    decreases j - m,
{
    if j > m {
        lemma_split_prefix(t, m, j - 1);
        let a = t.take(j);
        assert(a.drop_last() =~= t.take(j - 1));
        lemma_split_lines_nonempty(t.take(j - 1));
    }
}

/// The first declared load order is that of the first line that declares one.
proof fn lemma_first_load_order_at(xs: Seq<Seq<char>>, done: Seq<Seq<char>>, line: Seq<char>)
    requires
        xs.len() > done.len(),
        forall|k: int| 0 <= k < done.len() ==> line_load_order(#[trigger] done[k]) is None,
        forall|k: int| 0 <= k < done.len() ==> #[trigger] xs[k] == done[k],
        xs[done.len() as int] == line,
        line_load_order(line) is Some,
    ensures
        first_load_order(xs) == line_load_order(line),
    decreases done.len(),
{
    if done.len() > 0 {
        let d = done.drop_first();
        let x = xs.drop_first();
        assert forall|k: int| 0 <= k < d.len() implies line_load_order(#[trigger] d[k]) is None by {
            assert(d[k] == done[k + 1]);
        }
        assert forall|k: int| 0 <= k < d.len() implies #[trigger] x[k] == d[k] by {
            assert(x[k] == xs[k + 1] && d[k] == done[k + 1]);
        }
        lemma_first_load_order_at(x, d, line);
        assert(xs[0] == done[0]);
    }
}

fn is_white_char(c: char) -> (r: bool)
    ensures
        r == is_white(c),
{
    let v = c as u32;
    (0x09 <= v && v <= 0x0d) || v == 0x20 || v == 0x85 || v == 0xa0 || v == 0x1680 || (0x2000 <= v && v
        <= 0x200a) || v == 0x2028 || v == 0x2029 || v == 0x202f || v == 0x205f || v == 0x3000
}

/// The characters of `s`.
fn chars_of(s: &str) -> (r: Vec<char>)
    ensures
        r@ == s@,
{
    let n = s.unicode_len();
    let mut out: Vec<char> = Vec::new();
    for i in 0..n
        invariant
            n == s@.len(),
            out@ == s@.take(i as int),
    {
        out.push(s.get_char(i));
        assert(s@.take(i + 1) =~= s@.take(i as int).push(s@[i as int]));
    }
    assert(s@.take(n as int) =~= s@);
    out
}

proof fn lemma_trim_start_skip(s: Seq<char>, i: int)
    requires
        0 <= i <= s.len(),
        forall|j: int| 0 <= j < i ==> is_white(#[trigger] s[j]),
    ensures
        trim_start(s) == trim_start(s.skip(i)),
    decreases i,
{
    if i > 0 {
        assert(is_white(s[0]));
        let d = s.drop_first();
        assert forall|j: int| 0 <= j < i - 1 implies is_white(#[trigger] d[j]) by {
            assert(d[j] == s[j + 1]);
        }
        lemma_trim_start_skip(d, i - 1);
        assert(d.skip(i - 1) =~= s.skip(i));
    } else {
        assert(s.skip(0) =~= s);
    }
}

proof fn lemma_trim_end_take(s: Seq<char>, k: int)
    requires
        0 <= k <= s.len(),
        forall|j: int| k <= j < s.len() ==> is_white(#[trigger] s[j]),
    ensures
        trim_end(s) == trim_end(s.take(k)),
    decreases s.len() - k,
{
    if k < s.len() {
        assert(is_white(s.last()));
        let d = s.drop_last();
        lemma_trim_end_take(d, k);
        assert(d.take(k) =~= s.take(k));
    } else {
        assert(s.take(k) =~= s);
    }
}

/// Start of `trim_start(s[from..to])` within `s`.
fn skip_white(s: &Vec<char>, from: usize, to: usize) -> (lo: usize)
    requires
        from <= to <= s@.len(),
    ensures
        from <= lo <= to,
        s@.subrange(lo as int, to as int) == trim_start(s@.subrange(from as int, to as int)),
{
    let ghost sub = s@.subrange(from as int, to as int);
    let mut lo = from;
    while lo < to && is_white_char(s[lo])
        invariant
            from <= lo <= to <= s@.len(),
            forall|j: int| from <= j < lo ==> is_white(#[trigger] s@[j]),
        decreases to - lo,
    {
        lo = lo + 1;
    }
    proof {
        assert forall|j: int| 0 <= j < lo - from implies is_white(#[trigger] sub[j]) by {
            assert(sub[j] == s@[from + j]);
        }
        lemma_trim_start_skip(sub, lo - from);
        assert(sub.skip(lo - from) =~= s@.subrange(lo as int, to as int));
        let t = s@.subrange(lo as int, to as int);
        if lo < to {
            assert(t[0] == s@[lo as int]);
        }
    }
    lo
}

/// End of `trim_end(s[from..to])` within `s`.
fn skip_white_back(s: &Vec<char>, from: usize, to: usize) -> (hi: usize)
    requires
        from <= to <= s@.len(),
    ensures
        from <= hi <= to,
        s@.subrange(from as int, hi as int) == trim_end(s@.subrange(from as int, to as int)),
{
    let mut hi = to;
    while hi > from && is_white_char(s[hi - 1])
        invariant
            from <= hi <= to <= s@.len(),
            forall|j: int| hi <= j < to ==> is_white(#[trigger] s@[j]),
        decreases hi - from,
    {
        hi = hi - 1;
    }
    proof {
        let t = s@.subrange(from as int, to as int);
        assert forall|j: int| hi - from <= j < t.len() implies is_white(#[trigger] t[j]) by {
            assert(t[j] == s@[from + j]);
        }
        lemma_trim_end_take(t, hi - from);
        assert(t.take(hi - from) =~= s@.subrange(from as int, hi as int));
        let u = s@.subrange(from as int, hi as int);
        if hi > from {
            assert(u.last() == s@[hi - 1]);
        }
    }
    hi
}

proof fn lemma_commas_take(s: Seq<char>, k: int)
    requires
        0 <= k <= s.len(),
        forall|j: int| k <= j < s.len() ==> #[trigger] s[j] == ',',
    ensures
        trim_end_commas(s) == trim_end_commas(s.take(k)),
    decreases s.len() - k,
{
    if k < s.len() {
        let d = s.drop_last();
        lemma_commas_take(d, k);
        assert(d.take(k) =~= s.take(k));
    } else {
        assert(s.take(k) =~= s);
    }
}

/// End of `trim_end_commas(s[from..to])` within `s`.
fn skip_commas_back(s: &Vec<char>, from: usize, to: usize) -> (hi: usize)
    requires
        from <= to <= s@.len(),
    ensures
        from <= hi <= to,
        s@.subrange(from as int, hi as int) == trim_end_commas(s@.subrange(from as int, to as int)),
{
    let mut hi = to;
    while hi > from && s[hi - 1] == ','
        invariant
            from <= hi <= to <= s@.len(),
            forall|j: int| hi <= j < to ==> #[trigger] s@[j] == ',',
        decreases hi - from,
    {
        hi = hi - 1;
    }
    proof {
        let t = s@.subrange(from as int, to as int);
        assert forall|j: int| hi - from <= j < t.len() implies #[trigger] t[j] == ',' by {
            assert(t[j] == s@[from + j]);
        }
        lemma_commas_take(t, hi - from);
        assert(t.take(hi - from) =~= s@.subrange(from as int, hi as int));
        let u = s@.subrange(from as int, hi as int);
        if hi > from {
            assert(u.last() == s@[hi - 1]);
        }
    }
    hi
}

/// Bounds of `trim(s[from..to])` within `s`.
fn trim_bounds(s: &Vec<char>, from: usize, to: usize) -> (r: (usize, usize))
    requires
        from <= to <= s@.len(),
    ensures
        from <= r.0 <= r.1 <= to,
        s@.subrange(r.0 as int, r.1 as int) == trim(s@.subrange(from as int, to as int)),
{
    let lo = skip_white(s, from, to);
    let hi = skip_white_back(s, lo, to);
    (lo, hi)
}

proof fn lemma_digits_value_nonneg(s: Seq<char>)
    requires
        forall|i: int| 0 <= i < s.len() ==> is_digit(#[trigger] s[i]),
    ensures
        digits_value(s) >= 0,
    decreases s.len(),
{
    if s.len() > 0 {
        let d = s.drop_last();
        assert forall|i: int| 0 <= i < d.len() implies is_digit(#[trigger] d[i]) by {
            assert(d[i] == s[i]);
        }
        lemma_digits_value_nonneg(d);
    }
}

/// A longer string of digits is worth at least as much as its prefix.
proof fn lemma_digits_value_grows(s: Seq<char>, i: int)
    requires
        0 <= i <= s.len(),
        forall|k: int| 0 <= k < s.len() ==> is_digit(#[trigger] s[k]),
    ensures
        digits_value(s.take(i)) <= digits_value(s),
    decreases s.len() - i,
{
    if i < s.len() {
        let d = s.drop_last();
        assert forall|k: int| 0 <= k < d.len() implies is_digit(#[trigger] d[k]) by {
            assert(d[k] == s[k]);
        }
        lemma_digits_value_grows(d, i);
        assert(d.take(i) =~= s.take(i));
        lemma_digits_value_nonneg(d);
        assert(is_digit(s.last()));
    } else {
        assert(s.take(i) =~= s);
    }
}

/// Reads `s[from..to]` as a 64-bit decimal integer.
fn parse_i64_at(s: &Vec<char>, from: usize, to: usize) -> (r: Option<i64>)
    requires
        from <= to <= s@.len(),
    ensures
        r == parse_i64(s@.subrange(from as int, to as int)),
{
    let ghost t = s@.subrange(from as int, to as int);
    let mut start = from;
    let mut negative = false;
    if from < to && (s[from] == '+' || s[from] == '-') {
        negative = s[from] == '-';
        start = from + 1;
    }
    let ghost digits = s@.subrange(start as int, to as int);
    proof {
        let signed = t.len() > 0 && (t[0] == '+' || t[0] == '-');
        assert(signed == (start == from + 1));
        if signed {
            assert(digits =~= t.drop_first());
        } else {
            assert(digits =~= t);
        }
    }
    if start == to {
        return None;
    }
    // 2^63: a magnitude above it fits neither sign.
    let limit: u64 = 0x8000_0000_0000_0000;
    let mut acc: u64 = 0;
    let mut i = start;
    while i < to
        invariant
            from <= start < to <= s@.len(),
            start <= i <= to,
            t == s@.subrange(from as int, to as int),
            digits == magnitude(t),
            negative == (t.len() > 0 && t[0] == '-'),
            digits == s@.subrange(start as int, to as int),
            forall|k: int| start <= k < i ==> is_digit(#[trigger] s@[k]),
            acc as int == digits_value(digits.take(i - start)),
            limit == 0x8000_0000_0000_0000u64,
            acc <= limit,
        decreases to - i,
    {
        let c = s[i];
        if !('0' <= c && c <= '9') {
            proof {
                assert(digits[i - start] == c);
                assert(!is_digit(digits[i - start]));
                assert(!all_digits(digits));
                assert(parse_i64(t) is None);
            }
            return None;
        }
        let d = (c as u32 - '0' as u32) as u64;
        proof {
            assert(d as int == c as int - '0' as int);
            assert(digits[i - start] == c);
            assert(digits.take(i - start + 1).drop_last() =~= digits.take(i - start));
            assert(digits.take(i - start + 1).last() == c);
        }
        if acc > (limit - d) / 10 {
            // The value so far already exceeds 2^63, and more digits only add.
            proof {
                assert(acc * 10 + d > limit) by (nonlinear_arith)
                    requires
                        acc > (limit - d) / 10,
                        d <= 9,
                        limit == 0x8000_0000_0000_0000u64,
                ;
                if all_digits(digits) {
                    lemma_digits_value_grows(digits, i - start + 1);
                    assert(digits_value(digits) > limit);
                }
                assert(parse_i64(t) is None);
            }
            return None;
        }
        acc = acc * 10 + d;
        i = i + 1;
    }
    proof {
        assert(digits.take(to - start) =~= digits);
        assert forall|k: int| 0 <= k < digits.len() implies is_digit(#[trigger] digits[k]) by {
            assert(digits[k] == s@[start + k]);
        }
    }
    if negative {
        if acc == limit {
            Some(i64::MIN)
        } else {
            Some(-(acc as i64))
        }
    } else if acc == limit {
        None
    } else {
        Some(acc as i64)
    }
}

/// The load order that the line `s[from..to]` declares, if it declares one.
fn line_load_order_at(s: &Vec<char>, from: usize, to: usize) -> (r: Option<i64>)
    requires
        from <= to <= s@.len(),
    ensures
        r == line_load_order(s@.subrange(from as int, to as int)),
{
    let ghost line = s@.subrange(from as int, to as int);
    let (lo, hi) = trim_bounds(s, from, to);
    let ghost l = s@.subrange(lo as int, hi as int);
    let ghost w = load_order_word();
    let word: [char; 10] = ['l', 'o', 'a', 'd', '_', 'o', 'r', 'd', 'e', 'r'];
    assert(word@ =~= w);
    if hi - lo < 10 {
        return None;
    }
    let mut k: usize = 0;
    while k < 10
        invariant
            lo + 10 <= hi <= s@.len(),
            line == s@.subrange(from as int, to as int),
            trim(line) == l,
            w == load_order_word(),
            word@ == w,
            l == s@.subrange(lo as int, hi as int),
            k <= 10,
            forall|j: int| 0 <= j < k ==> #[trigger] s@[lo + j] == w[j],
        decreases 10 - k,
    {
        if s[lo + k] != word[k] {
            proof {
                assert(l.take(10)[k as int] != w[k as int]);
            }
            return None;
        }
        k = k + 1;
    }
    assert(l.take(10) =~= w) by {
        assert forall|j: int| 0 <= j < 10 implies #[trigger] l.take(10)[j] == w[j] by {
            assert(l.take(10)[j] == s@[lo + j]);
        }
    }
    assert(l.skip(10) =~= s@.subrange(lo + 10, hi as int));
    let a = skip_white(s, lo + 10, hi);
    let ghost after = s@.subrange(a as int, hi as int);
    assert(after == trim_start(l.skip(10)));
    assert(l.len() >= w.len() && l.take(w.len() as int) == w);
    if !(a < hi && s[a] == '=') {
        proof {
            assert(!(after.len() > 0 && after[0] == '='));
            let e = Seq::<char>::empty();
            assert(trim_start(e) == e);
            assert(trim_end(e) == e);
            assert(trim(e) == e);
            assert(trim_end_commas(e) == e);
            assert(parse_i64(e) is None);
            assert(trim(line) == l);
            assert(line_load_order(line) is None);
        }
        return None;
    }
    assert(after.drop_first() =~= s@.subrange(a + 1, hi as int));
    let (v0, v1) = trim_bounds(s, a + 1, hi);
    let c1 = skip_commas_back(s, v0, v1);
    let (p0, p1) = trim_bounds(s, v0, c1);
    parse_i64_at(s, p0, p1)
}

/// The load order declared by the manifest with text `text`: the first line
/// `load_order = <integer>` gives it, and without one it is 100.
pub fn load_order_of(text: &str) -> (r: i64)
    ensures
        r == spec_load_order(text@),
{
    let s = chars_of(text);
    let n = s.len();
    let mut line_start: usize = 0;
    let ghost mut done: Seq<Seq<char>> = Seq::empty();
    let mut i: usize = 0;
    proof {
        assert(s@.take(0) =~= Seq::<char>::empty());
        assert(s@.subrange(0, 0) =~= Seq::<char>::empty());
        assert(done.push(Seq::<char>::empty()) =~= seq![Seq::<char>::empty()]);
    }
    while i < n
        invariant
            n == s@.len(),
            s@ == text@,
            line_start <= i <= n,
            split_lines(s@.take(i as int)) == done.push(s@.subrange(line_start as int, i as int)),
            forall|k: int| 0 <= k < done.len() ==> line_load_order(#[trigger] done[k]) is None,
        decreases n - i,
    {
        proof {
            assert(s@.take(i + 1).drop_last() =~= s@.take(i as int));
            assert(s@.take(i + 1).last() == s@[i as int]);
        }
        if s[i] == '\n' {
            let found = line_load_order_at(&s, line_start, i);
            if let Some(v) = found {
                proof {
                    let line = s@.subrange(line_start as int, i as int);
                    assert(split_lines(s@.take(i + 1)) == done.push(line).push(Seq::empty()));
                    lemma_split_prefix(s@, i + 1, n as int);
                    assert(s@.take(n as int) =~= s@);
                    let xs = split_lines(s@);
                    assert forall|k: int| 0 <= k < done.len() implies #[trigger] xs[k] == done[k] by {
                        assert(done.push(line).push(Seq::empty())[k] == done[k]);
                    }
                    assert(done.push(line).push(Seq::empty())[done.len() as int] == line);
                    lemma_first_load_order_at(xs, done, line);
                }
                return v;
            }
            proof {
                done = done.push(s@.subrange(line_start as int, i as int));
                assert(s@.subrange(i + 1, i + 1) =~= Seq::<char>::empty());
            }
            line_start = i + 1;
        } else {
            proof {
                assert(s@.subrange(line_start as int, i + 1) =~= s@.subrange(line_start as int, i as int).push(
                    s@[i as int],
                ));
            }
        }
        i = i + 1;
    }
    proof {
        assert(s@.take(n as int) =~= s@);
        lemma_first_load_order_push(done, s@.subrange(line_start as int, n as int));
    }
    match line_load_order_at(&s, line_start, n) {
        Some(v) => v,
        None => DEFAULT_LOAD_ORDER,
    }
}

/// The pattern that names every Lua script of a directory, after the slash.
pub open spec fn all_lua_suffix() -> Seq<char> {
    seq!['*', '.', 'l', 'u', 'a']
}

/// `k` is the position of the first slash of `p`.
pub open spec fn first_slash_at(p: Seq<char>, k: int) -> bool {
    &&& 0 <= k < p.len()
    &&& p[k] == '/'
    &&& forall|j: int| 0 <= j < k ==> p[j] != '/'
}

/// The directory that a script pattern of the form `<dir>/*.lua` names (the
/// pattern split at its first slash); `None` for a pattern that names a
/// single file.
pub fn glob_dir(pattern: &str) -> (r: Option<String>)
    ensures
        match r {
            Some(d) => exists|k: int|
                #[trigger] first_slash_at(pattern@, k) && d@ == pattern@.take(k) && pattern@.skip(k + 1)
                    == all_lua_suffix(),
            None => forall|k: int|
                #[trigger] first_slash_at(pattern@, k) ==> pattern@.skip(k + 1) != all_lua_suffix(),
        },
{
    let n = pattern.unicode_len();
    let mut k: usize = 0;
    while k < n && pattern.get_char(k) != '/'
        invariant
            n == pattern@.len(),
            k <= n,
            forall|j: int| 0 <= j < k ==> pattern@[j] != '/',
        decreases n - k,
    {
        k = k + 1;
    }
    if k == n {
        return None;
    }
    assert(first_slash_at(pattern@, k as int));
    assert forall|k2: int| #[trigger] first_slash_at(pattern@, k2) implies k2 == k by {
        if k2 < k {
            assert(pattern@[k2] != '/');
        } else if k2 > k {
            assert(pattern@[k as int] != '/');
        }
    }
    let suffix: [char; 5] = ['*', '.', 'l', 'u', 'a'];
    assert(suffix@ =~= all_lua_suffix());
    if n - (k + 1) != 5 {
        return None;
    }
    let mut j: usize = 0;
    while j < 5
        invariant
            n == pattern@.len(),
            k + 6 == n,
            first_slash_at(pattern@, k as int),
            forall|k2: int| #[trigger] first_slash_at(pattern@, k2) ==> k2 == k,
            suffix@ == all_lua_suffix(),
            j <= 5,
            forall|q: int| 0 <= q < j ==> #[trigger] pattern@[k + 1 + q] == suffix@[q],
        decreases 5 - j,
    {
        if pattern.get_char(k + 1 + j) != suffix[j] {
            assert(pattern@.skip(k + 1)[j as int] != all_lua_suffix()[j as int]);
            return None;
        }
        j = j + 1;
    }
    assert(pattern@.skip(k + 1) =~= all_lua_suffix()) by {
        assert forall|q: int| 0 <= q < 5 implies #[trigger] pattern@.skip(k + 1)[q] == all_lua_suffix()[q] by {
            assert(pattern@.skip(k + 1)[q] == pattern@[k + 1 + q]);
        }
    }
    let dir = pattern.substring_char(0, k).to_string();
    assert(dir@ =~= pattern@.take(k as int));
    Some(dir)
}

/// Whether a file name has the extension `lua`: it ends in `.lua` and has
/// something before that dot (a name such as `.lua` has no extension).
pub fn has_lua_extension(file_name: &str) -> (r: bool)
    ensures
        r == (file_name@.len() >= 5 && file_name@.skip(file_name@.len() - 4) == seq!['.', 'l', 'u', 'a']),
{
    let n = file_name.unicode_len();
    if n < 5 {
        return false;
    }
    let ext: [char; 4] = ['.', 'l', 'u', 'a'];
    let ghost want = seq!['.', 'l', 'u', 'a'];
    assert(ext@ =~= want);
    let mut j: usize = 0;
    while j < 4
        invariant
            n == file_name@.len(),
            n >= 5,
            want == seq!['.', 'l', 'u', 'a'],
            ext@ == want,
            j <= 4,
            forall|q: int| 0 <= q < j ==> #[trigger] file_name@[n - 4 + q] == want[q],
        decreases 4 - j,
    {
        if file_name.get_char(n - 4 + j) != ext[j] {
            assert(file_name@.skip(n - 4)[j as int] != want[j as int]);
            return false;
        }
        j = j + 1;
    }
    assert(file_name@.skip(n - 4) =~= want) by {
        assert forall|q: int| 0 <= q < 4 implies #[trigger] file_name@.skip(n - 4)[q] == want[q] by {
            assert(file_name@.skip(n - 4)[q] == file_name@[n - 4 + q]);
        }
    }
    true
}

/// Entry `i` with load order `orders[i]` loads before entry `j`: a smaller
/// load order first, and between equal orders the entry listed first.
pub open spec fn loads_before(orders: Seq<i64>, i: int, j: int) -> bool {
    orders[i] < orders[j] || (orders[i] == orders[j] && i < j)
}

/// The order in which to load resources whose load orders are `orders`
/// (listed by path): the indices `0..n`, each once, by load order, and in
/// listed order between equal load orders.
pub fn load_sequence(orders: &Vec<i64>) -> (r: Vec<usize>)
    ensures
        r@.len() == orders@.len(),
        forall|k: int| 0 <= k < r@.len() ==> #[trigger] r@[k] < orders@.len(),
        forall|a: int, b: int| 0 <= a < b < r@.len() ==> loads_before(orders@, #[trigger] r@[a] as int, #[trigger] r@[b] as int),
        forall|i: int| 0 <= i < orders@.len() ==> #[trigger] r@.contains(i as usize),
{
    let n = orders.len();
    let mut out: Vec<usize> = Vec::new();
    for k in 0..n
        invariant
            n == orders@.len(),
            out@.len() == k,
            forall|q: int| 0 <= q < out@.len() ==> #[trigger] out@[q] < k,
            forall|a: int, b: int| 0 <= a < b < out@.len() ==> loads_before(orders@, #[trigger] out@[a] as int, #[trigger] out@[b] as int),
            forall|i: int| 0 <= i < k ==> #[trigger] out@.contains(i as usize),
    {
        // First position whose entry loads after entry k.
        let mut p: usize = 0;
        while p < out.len() && !(orders[k] < orders[out[p]])
            invariant
                n == orders@.len(),
                k < n,
                p <= out@.len(),
                forall|q: int| 0 <= q < out@.len() ==> #[trigger] out@[q] < k,
                forall|q: int| 0 <= q < p ==> loads_before(orders@, #[trigger] out@[q] as int, k as int),
            decreases out@.len() - p,
        {
            p = p + 1;
        }
        proof {
            // Everything from p on loads after k: the orders only grow from p.
            assert forall|q: int| p <= q < out@.len() implies loads_before(orders@, k as int, #[trigger] out@[q] as int) by {
                if q > p {
                    assert(loads_before(orders@, out@[p as int] as int, out@[q] as int));
                }
            }
        }
        let ghost before = out@;
        out.insert(p, k);
        proof {
            assert forall|q: int| 0 <= q < out@.len() implies #[trigger] out@[q] < k + 1 by {
                if q < p {
                    assert(out@[q] == before[q]);
                } else if q > p {
                    assert(out@[q] == before[q - 1]);
                }
            }
            assert forall|a: int, b: int| 0 <= a < b < out@.len() implies loads_before(orders@, #[trigger] out@[a] as int, #[trigger] out@[b] as int) by {
                if b < p {
                    assert(out@[a] == before[a] && out@[b] == before[b]);
                } else if b == p {
                    assert(out@[a] == before[a]);
                } else if a < p {
                    assert(out@[a] == before[a] && out@[b] == before[b - 1]);
                } else if a == p {
                    assert(out@[b] == before[b - 1]);
                } else {
                    assert(out@[a] == before[a - 1] && out@[b] == before[b - 1]);
                }
            }
            assert forall|i: int| 0 <= i < k + 1 implies #[trigger] out@.contains(i as usize) by {
                if i == k {
                    assert(out@[p as int] == k);
                } else {
                    assert(before.contains(i as usize));
                    let q = choose|q: int| 0 <= q < before.len() && before[q] == i as usize;
                    if q < p {
                        assert(out@[q] == before[q]);
                    } else {
                        assert(out@[q + 1] == before[q]);
                    }
                }
            }
        }
    }
    out
}

} // verus!
