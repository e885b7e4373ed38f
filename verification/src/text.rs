//! Character-level text helpers: whitespace, trimming, splitting, searching
//! and decimal rendering, each with the specification it is proved against.

use vstd::prelude::*;

verus! {

/// The Unicode `White_Space` property, the set that `char::is_whitespace`
/// tests: U+0009..U+000D, U+0020, U+0085, U+00A0, U+1680, U+2000..U+200A,
/// U+2028, U+2029, U+202F, U+205F and U+3000.
pub open spec fn is_space(c: char) -> bool {
    let u = c as u32;
    ||| 0x09 <= u <= 0x0D
    ||| u == 0x20
    ||| u == 0x85
    ||| u == 0xA0
    ||| u == 0x1680
    ||| 0x2000 <= u <= 0x200A
    ||| u == 0x2028
    ||| u == 0x2029
    ||| u == 0x202F
    ||| u == 0x205F
    ||| u == 0x3000
}

/// Whether `c` is a whitespace character.
pub fn char_is_space(c: char) -> (r: bool)
    ensures
        r == is_space(c),
{
    let u = c as u32;
    (0x09 <= u && u <= 0x0D) || u == 0x20 || u == 0x85 || u == 0xA0 || u == 0x1680 || (0x2000
        <= u && u <= 0x200A) || u == 0x2028 || u == 0x2029 || u == 0x202F || u == 0x205F || u
        == 0x3000
}

/// The characters of `s`, in order.
pub fn chars_of(s: &str) -> (v: Vec<char>)
    ensures
        v@ == s@,
{
    let mut v: Vec<char> = Vec::new();
    for c in it: s.chars()
        invariant
            v@ == it.seq().take(it.index() as int),
    {
        v.push(c);
    }
    v
}

/// `std`'s `FromIterator<char>` for `String`: the string made of the given
/// characters, in order.
#[verifier::external_body]
pub fn string_from_chars(v: &[char]) -> (s: String)
    ensures
        s@ == v@,
{
    v.iter().collect()
}


/// `s` without its leading whitespace.
pub open spec fn trim_start(s: Seq<char>) -> Seq<char>
    decreases s.len(),
{
    if s.len() > 0 && is_space(s[0]) {
        trim_start(s.drop_first())
    } else {
        s
    }
}

/// `s` without its trailing whitespace.
pub open spec fn trim_end(s: Seq<char>) -> Seq<char>
    decreases s.len(),
{
    if s.len() > 0 && is_space(s.last()) {
        trim_end(s.drop_last())
    } else {
        s
    }
}

/// `s` without leading and trailing whitespace (`str::trim`).
pub open spec fn trim(s: Seq<char>) -> Seq<char> {
    trim_end(trim_start(s))
}

/// Whether `s` starts with `p`.
pub open spec fn has_prefix(s: Seq<char>, p: Seq<char>) -> bool {
    p.len() <= s.len() && s.subrange(0, p.len() as int) == p
}

/// The pieces of `s` between `'\n'` characters, in order: one more piece
/// than there are newlines, empty pieces included.
pub open spec fn split_lines(s: Seq<char>) -> Seq<Seq<char>>
    decreases s.len(),
{
    if s.len() == 0 {
        seq![Seq::empty()]
    } else {
        let pre = split_lines(s.drop_last());
        if s.last() == '\n' {
            pre.push(Seq::empty())
        } else {
            pre.update(pre.len() - 1, pre.last().push(s.last()))
        }
    }
}

/// Scanning `s` from the left: the words completed so far and the word in
/// progress (empty after a whitespace character).
pub open spec fn word_scan(s: Seq<char>) -> (Seq<Seq<char>>, Seq<char>)
    decreases s.len(),
{
    if s.len() == 0 {
        (seq![], seq![])
    } else {
        let (ws, cur) = word_scan(s.drop_last());
        if is_space(s.last()) {
            if cur.len() > 0 {
                (ws.push(cur), seq![])
            } else {
                (ws, seq![])
            }
        } else {
            (ws, cur.push(s.last()))
        }
    }
}

/// The maximal runs of non-whitespace characters of `s`, in order
/// (`str::split_whitespace`).
pub open spec fn words(s: Seq<char>) -> Seq<Seq<char>> {
    let (ws, cur) = word_scan(s);
    if cur.len() > 0 {
        ws.push(cur)
    } else {
        ws
    }
}

/// The first index at or after `i` where `p` occurs in `s`.
pub open spec fn find_from(s: Seq<char>, p: Seq<char>, i: int) -> Option<int>
    decreases s.len() + 1 - i,
{
    if i < 0 || i + p.len() > s.len() {
        None
    } else if s.subrange(i, i + p.len()) == p {
        Some(i)
    } else {
        find_from(s, p, i + 1)
    }
}

/// The first index where `p` occurs in `s` (`str::find`).
pub open spec fn find(s: Seq<char>, p: Seq<char>) -> Option<int> {
    find_from(s, p, 0)
}

/// The decimal digit for `d` (`d < 10`).
pub open spec fn digit(d: nat) -> char {
    if d == 0 {
        '0'
    } else if d == 1 {
        '1'
    } else if d == 2 {
        '2'
    } else if d == 3 {
        '3'
    } else if d == 4 {
        '4'
    } else if d == 5 {
        '5'
    } else if d == 6 {
        '6'
    } else if d == 7 {
        '7'
    } else if d == 8 {
        '8'
    } else {
        '9'
    }
}

/// The decimal rendering of `n`, without leading zeros.
pub open spec fn decimal(n: nat) -> Seq<char>
    decreases n,
{
    if n < 10 {
        seq![digit(n)]
    } else {
        decimal(n / 10).push(digit(n % 10))
    }
}

/// The decimal rendering of `i`, with a leading `-` when negative (the
/// `Display` of Rust's integers).
pub open spec fn signed_decimal(i: int) -> Seq<char> {
    if i < 0 {
        seq!['-'] + decimal((-i) as nat)
    } else {
        decimal(i as nat)
    }
}

fn digit_char(d: u64) -> (c: char)
    requires
        d < 10,
    ensures
        c == digit(d as nat),
{
    if d == 0 {
        '0'
    } else if d == 1 {
        '1'
    } else if d == 2 {
        '2'
    } else if d == 3 {
        '3'
    } else if d == 4 {
        '4'
    } else if d == 5 {
        '5'
    } else if d == 6 {
        '6'
    } else if d == 7 {
        '7'
    } else if d == 8 {
        '8'
    } else {
        '9'
    }
}

/// Appends the decimal rendering of `n` to `out`.
pub fn push_decimal(n: u64, out: &mut Vec<char>)
    ensures
        final(out)@ == old(out)@ + decimal(n as nat),
    decreases n,
{
    if n >= 10 {
        push_decimal(n / 10, out);
    }
    out.push(digit_char(n % 10));
    assert(final(out)@ =~= old(out)@ + decimal(n as nat));
}

/// Appends the decimal rendering of `i` to `out`.
pub fn push_signed_decimal(i: i64, out: &mut Vec<char>)
    ensures
        final(out)@ == old(out)@ + signed_decimal(i as int),
{
    if i < 0 {
        out.push('-');
        let m: u64 = if i == i64::MIN {
            9223372036854775808u64
        } else {
            (-i) as u64
        };
        push_decimal(m, out);
        assert(final(out)@ =~= old(out)@ + signed_decimal(i as int));
    } else {
        push_decimal(i as u64, out);
    }
}

/// The characters `v[start..end]`.
pub fn copy_range(v: &Vec<char>, start: usize, end: usize) -> (r: Vec<char>)
    requires
        start <= end <= v.len(),
    ensures
        r@ == v@.subrange(start as int, end as int),
{
    let mut r: Vec<char> = Vec::new();
    let mut i = start;
    while i < end
        invariant
            start <= i <= end <= v.len(),
            r@ == v@.subrange(start as int, i as int),
        decreases end - i,
    {
        r.push(v[i]);
        i = i + 1;
        assert(r@ =~= v@.subrange(start as int, i as int));
    }
    r
}

/// The bounds of `trim(v[start..end])` inside `v`.
pub fn trim_bounds(v: &Vec<char>, start: usize, end: usize) -> (r: (usize, usize))
    requires
        start <= end <= v.len(),
    ensures
        start <= r.0 <= r.1 <= end,
        v@.subrange(r.0 as int, r.1 as int) == trim(v@.subrange(start as int, end as int)),
{
    let mut lo = start;
    while lo < end && char_is_space(v[lo])
        invariant
            start <= lo <= end <= v.len(),
            trim_start(v@.subrange(start as int, end as int)) == trim_start(
                v@.subrange(lo as int, end as int),
            ),
        decreases end - lo,
    {
        assert(v@.subrange(lo as int, end as int).drop_first() =~= v@.subrange(
            lo + 1,
            end as int,
        ));
        lo = lo + 1;
    }
    let mut hi = end;
    while hi > lo && char_is_space(v[hi - 1])
        invariant
            start <= lo <= hi <= end <= v.len(),
            trim_end(v@.subrange(lo as int, end as int)) == trim_end(
                v@.subrange(lo as int, hi as int),
            ),
        decreases hi - lo,
    {
        assert(v@.subrange(lo as int, hi as int).drop_last() =~= v@.subrange(
            lo as int,
            hi - 1,
        ));
        hi = hi - 1;
    }
    (lo, hi)
}

/// Whether `v[start..end]` starts with `p`.
pub fn has_prefix_at(v: &Vec<char>, start: usize, end: usize, p: &Vec<char>) -> (r: bool)
    requires
        start <= end <= v.len(),
    ensures
        r == has_prefix(v@.subrange(start as int, end as int), p@),
{
    if p.len() > end - start {
        return false;
    }
    let mut k: usize = 0;
    while k < p.len()
        invariant
            p.len() <= end - start,
            start <= end <= v.len(),
            k <= p.len(),
            forall|j: int| 0 <= j < k ==> v@[start + j] == p@[j],
        decreases p.len() - k,
    {
        if v[start + k] != p[k] {
            assert(v@.subrange(start as int, end as int).subrange(0, p.len() as int)[k as int]
                != p@[k as int]);
            return false;
        }
        k = k + 1;
    }
    assert(v@.subrange(start as int, end as int).subrange(0, p.len() as int) =~= p@);
    true
}

/// The bounds, inside `v`, of the words of `v[start..end]`.
pub fn word_bounds(v: &Vec<char>, start: usize, end: usize) -> (r: Vec<(usize, usize)>)
    requires
        start <= end <= v.len(),
    ensures
        forall|k: int| 0 <= k < r.len() ==> start <= #[trigger] r@[k].0 <= r@[k].1 <= end,
        r@.map_values(|b: (usize, usize)| v@.subrange(b.0 as int, b.1 as int)) == words(
            v@.subrange(start as int, end as int),
        ),
{
    let mut r: Vec<(usize, usize)> = Vec::new();
    let mut cur = start;
    let mut i = start;
    while i < end
        invariant
            start <= cur <= i <= end <= v.len(),
            forall|k: int| 0 <= k < r.len() ==> start <= #[trigger] r@[k].0 <= r@[k].1 <= i,
            word_scan(v@.subrange(start as int, i as int)) == (
                r@.map_values(|b: (usize, usize)| v@.subrange(b.0 as int, b.1 as int)),
                v@.subrange(cur as int, i as int),
            ),
        decreases end - i,
    {
        let ghost old_r = r@;
        assert(v@.subrange(start as int, i + 1).drop_last() =~= v@.subrange(
            start as int,
            i as int,
        ));
        if char_is_space(v[i]) {
            if cur < i {
                r.push((cur, i));
                assert(r@.map_values(|b: (usize, usize)| v@.subrange(b.0 as int, b.1 as int))
                    =~= old_r.map_values(
                    |b: (usize, usize)| v@.subrange(b.0 as int, b.1 as int),
                ).push(v@.subrange(cur as int, i as int)));
            }
            cur = i + 1;
            assert(v@.subrange(cur as int, i + 1) =~= Seq::<char>::empty());
        } else {
            assert(v@.subrange(cur as int, i + 1) =~= v@.subrange(cur as int, i as int).push(
                v@[i as int],
            ));
        }
        i = i + 1;
    }
    if cur < end {
        let ghost old_r = r@;
        r.push((cur, end));
        assert(r@.map_values(|b: (usize, usize)| v@.subrange(b.0 as int, b.1 as int))
            =~= old_r.map_values(|b: (usize, usize)| v@.subrange(b.0 as int, b.1 as int)).push(
            v@.subrange(cur as int, end as int),
        ));
    }
    r
}


/// Appends the characters of `s` to `out`.
pub fn push_str(out: &mut Vec<char>, s: &str)
    ensures
        final(out)@ == old(out)@ + s@,
{
    let v = chars_of(s);
    let mut k: usize = 0;
    while k < v.len()
        invariant
            k <= v.len(),
            v@ == s@,
            out@ == old(out)@ + v@.subrange(0, k as int),
        decreases v.len() - k,
    {
        out.push(v[k]);
        k = k + 1;
        assert(out@ =~= old(out)@ + v@.subrange(0, k as int));
    }
    assert(v@.subrange(0, v.len() as int) =~= v@);
}

/// The pieces joined with `sep` between neighbours.
pub open spec fn joined(xs: Seq<Seq<char>>, sep: Seq<char>) -> Seq<char>
    decreases xs.len(),
{
    if xs.len() == 0 {
        seq![]
    } else if xs.len() == 1 {
        xs[0]
    } else {
        joined(xs.drop_last(), sep) + sep + xs.last()
    }
}

/// What `format!("{:?}", s)` writes for a string `s`: `s` in double quotes,
/// escaped as Rust's `Debug` for `str` escapes it.
pub uninterp spec fn debug_quoted(s: Seq<char>) -> Seq<char>;

/// `<str as Debug>::fmt`, through `format!("{:?}", ..)`. Its result is the
/// named value `debug_quoted(s@)`; the escaping rules themselves are not stated.
#[verifier::external_body]
fn debug_quote(s: &str) -> (r: String)
    ensures
        r@ == debug_quoted(s@),
{
    format!("{:?}", s)
}

/// What `format!("{:?}", v)` writes for a list of strings `v`:
/// `[`, the quoted items separated by `, `, then `]`.
pub open spec fn debug_list(items: Seq<Seq<char>>) -> Seq<char> {
    "["@ + joined(items.map_values(|s: Seq<char>| debug_quoted(s)), ", "@) + "]"@
}

/// Appends the `Debug` rendering of a list of strings to `out`.
pub fn push_debug_list(out: &mut Vec<char>, items: &Vec<String>)
    ensures
        final(out)@ == old(out)@ + debug_list(items@.map_values(|s: String| s@)),
{
    let ghost all = items@.map_values(|s: String| s@);
    let ghost quoted = all.map_values(|s: Seq<char>| debug_quoted(s));
    push_str(out, "[");
    let ghost base = out@;
    let mut k: usize = 0;
    while k < items.len()
        invariant
            k <= items.len(),
            all == items@.map_values(|s: String| s@),
            quoted == all.map_values(|s: Seq<char>| debug_quoted(s)),
            base == old(out)@ + "["@,
            out@ == base + joined(quoted.subrange(0, k as int), ", "@),
        decreases items.len() - k,
    {
        let ghost before = out@;
        if k > 0 {
            push_str(out, ", ");
        }
        let q = debug_quote(items[k].as_str());
        let qc = chars_of(q.as_str());
        let mut j: usize = 0;
        let ghost mid = out@;
        while j < qc.len()
            invariant
                j <= qc.len(),
                out@ == mid + qc@.subrange(0, j as int),
            decreases qc.len() - j,
        {
            out.push(qc[j]);
            j = j + 1;
            assert(out@ =~= mid + qc@.subrange(0, j as int));
        }
        assert(qc@.subrange(0, qc.len() as int) =~= qc@);
        assert(quoted[k as int] == debug_quoted(items@[k as int]@));
        assert(quoted.subrange(0, k + 1).drop_last() =~= quoted.subrange(0, k as int));
        k = k + 1;
        assert(out@ =~= base + joined(quoted.subrange(0, k as int), ", "@));
    }
    assert(quoted.subrange(0, items.len() as int) =~= quoted);
    push_str(out, "]");
    assert(out@ =~= old(out)@ + debug_list(all));
}


/// The first index where `p` occurs in `v`.
pub fn find_chars(v: &Vec<char>, p: &Vec<char>) -> (r: Option<usize>)
    ensures
        match r {
            Some(i) => find(v@, p@) == Some(i as int) && i + p.len() <= v.len(),
            None => find(v@, p@) is None,
        },
{
    if p.len() == 0 {
        assert(v@.subrange(0, 0) =~= p@);
        return Some(0);
    }
    let mut i: usize = 0;
    while i <= v.len()
        invariant
            p.len() > 0,
            i <= v.len() + 1,
            find(v@, p@) == find_from(v@, p@, i as int),
        decreases v.len() + 1 - i,
    {
        if p.len() > v.len() - i {
            return None;
        }
        if has_prefix_at(v, i, i + p.len(), p) {
            assert(v@.subrange(i as int, i + p.len()).subrange(0, p.len() as int) =~= v@.subrange(
                i as int,
                i + p.len(),
            ));
            return Some(i);
        }
        assert(v@.subrange(i as int, i + p.len()).subrange(0, p.len() as int) =~= v@.subrange(
            i as int,
            i + p.len(),
        ));
        i = i + 1;
    }
    None
}

/// Whether `a` and `b` hold the same characters.
pub fn chars_eq(a: &Vec<char>, b: &Vec<char>) -> (r: bool)
    ensures
        r == (a@ == b@),
{
    if a.len() != b.len() {
        return false;
    }
    let mut k: usize = 0;
    while k < a.len()
        invariant
            a.len() == b.len(),
            k <= a.len(),
            forall|j: int| 0 <= j < k ==> a@[j] == b@[j],
        decreases a.len() - k,
    {
        if a[k] != b[k] {
            return false;
        }
        k = k + 1;
    }
    assert(a@ =~= b@);
    true
}

/// An owned copy of `s`.
pub fn owned(s: &str) -> (r: String)
    ensures
        r@ == s@,
{
    let v = chars_of(s);
    string_from_chars(v.as_slice())
}

/// A copy of a list of strings.
pub fn clone_strings(v: &Vec<String>) -> (r: Vec<String>)
    ensures
        r@ == v@,
{
    let mut r: Vec<String> = Vec::new();
    let mut k: usize = 0;
    while k < v.len()
        invariant
            k <= v.len(),
            r@ == v@.subrange(0, k as int),
        decreases v.len() - k,
    {
        r.push(v[k].clone());
        k = k + 1;
        assert(r@ =~= v@.subrange(0, k as int));
    }
    assert(v@.subrange(0, v.len() as int) =~= v@);
    r
}

} // verus!
