//! Character-level helpers on strings: searching, replacing, splitting and
//! rebuilding. Every function states its result over `Seq<char>`.

use vstd::prelude::*;

verus! {

/// `p` occurs in `s` starting at index `i`.
pub open spec fn matches_at(s: Seq<char>, p: Seq<char>, i: int) -> bool {
    0 <= i && i + p.len() <= s.len() && s.subrange(i, i + p.len()) == p
}

/// `p` occurs somewhere in `s`.
pub open spec fn contains(s: Seq<char>, p: Seq<char>) -> bool {
    exists|i: int| #[trigger] matches_at(s, p, i)
}

/// `i` is the first index at which `p` occurs in `s`.
pub open spec fn is_first_match(s: Seq<char>, p: Seq<char>, i: int) -> bool {
    matches_at(s, p, i) && forall|j: int| 0 <= j < i ==> !#[trigger] matches_at(s, p, j)
}

/// The first index at which `p` occurs in `s`, if any.
pub open spec fn find(s: Seq<char>, p: Seq<char>) -> Option<int> {
    if contains(s, p) {
        Some(choose|i: int| is_first_match(s, p, i))
    } else {
        None
    }
}

/// Every occurrence of `p` in `s`, scanned from the left without overlap,
/// replaced by `r`. An empty pattern leaves the text as it is.
pub open spec fn replace_all(s: Seq<char>, p: Seq<char>, r: Seq<char>) -> Seq<char>
    decreases s.len(),
{
    if p.len() == 0 || s.len() < p.len() {
        s
    } else if s.take(p.len() as int) == p {
        r + replace_all(s.skip(p.len() as int), p, r)
    } else {
        seq![s[0]] + replace_all(s.skip(1), p, r)
    }
}

/// The first occurrence of `p` in `s` replaced by `r`; `s` itself where `p`
/// does not occur.
pub open spec fn replace_first(s: Seq<char>, p: Seq<char>, r: Seq<char>) -> Seq<char> {
    match find(s, p) {
        Some(i) => s.take(i) + r + s.skip(i + p.len()),
        None => s,
    }
}

/// The pieces of `s` between occurrences of the separator `c`; there is
/// always at least one piece.
pub open spec fn split_on(s: Seq<char>, c: char) -> Seq<Seq<char>>
    decreases s.len(),
{
    if s.len() == 0 {
        seq![Seq::<char>::empty()]
    } else {
        let rest = split_on(s.drop_last(), c);
        if s.last() == c {
            rest.push(Seq::<char>::empty())
        } else {
            rest.update(rest.len() - 1, rest.last().push(s.last()))
        }
    }
}

/// `s` without the copies of `c` at its start.
pub open spec fn strip_leading(s: Seq<char>, c: char) -> Seq<char>
    decreases s.len(),
{
    if s.len() > 0 && s[0] == c {
        strip_leading(s.skip(1), c)
    } else {
        s
    }
}

/// `s` without the copies of `c` at its end.
pub open spec fn strip_trailing(s: Seq<char>, c: char) -> Seq<char>
    decreases s.len(),
{
    if s.len() > 0 && s.last() == c {
        strip_trailing(s.drop_last(), c)
    } else {
        s
    }
}

/// `s` without the copies of `c` at either end.
pub open spec fn trim_char(s: Seq<char>, c: char) -> Seq<char> {
    strip_trailing(strip_leading(s, c), c)
}

/// A decimal digit.
pub open spec fn is_digit(c: char) -> bool {
    '0' <= c && c <= '9'
}

/// The value of a string of decimal digits.
pub open spec fn digits_value(s: Seq<char>) -> int
    decreases s.len(),
{
    if s.len() == 0 {
        0
    } else {
        digits_value(s.drop_last()) * 10 + ((s.last() as u32) - ('0' as u32))
    }
}

/// A non-empty string of decimal digits whose value fits in a `u32`.
pub open spec fn decimal_u32(s: Seq<char>) -> Option<u32> {
    if s.len() > 0 && (forall|i: int| 0 <= i < s.len() ==> is_digit(#[trigger] s[i])) && digits_value(s)
        <= u32::MAX {
        Some(digits_value(s) as u32)
    } else {
        None
    }
}

proof fn lemma_first_match_unique(s: Seq<char>, p: Seq<char>, i: int)
    requires
        is_first_match(s, p, i),
    ensures
        find(s, p) == Some(i),
{
    assert(contains(s, p));
    let k = choose|k: int| is_first_match(s, p, k);
    assert(is_first_match(s, p, k));
    if k < i {
        assert(!matches_at(s, p, k));
    }
    if i < k {
        assert(!matches_at(s, p, i));
    }
}

/// Text in which `p` does not occur is left as it is.
pub proof fn lemma_replace_all_absent(s: Seq<char>, p: Seq<char>, r: Seq<char>)
    requires
        !contains(s, p),
    ensures
        replace_all(s, p, r) == s,
    decreases s.len(),
{
    if p.len() == 0 || s.len() < p.len() {
    } else {
        if s.take(p.len() as int) == p {
            assert(s.subrange(0, p.len() as int) =~= s.take(p.len() as int));
            assert(matches_at(s, p, 0));
        }
        let t = s.skip(1);
        assert forall|i: int| !#[trigger] matches_at(t, p, i) by {
            if matches_at(t, p, i) {
                assert(s.subrange(i + 1, i + 1 + p.len()) =~= t.subrange(i, i + p.len()));
                assert(matches_at(s, p, i + 1));
            }
        }
        lemma_replace_all_absent(t, p, r);
        assert(seq![s[0]] + t =~= s);
    }
}

/// The characters of `s`, in order.
pub fn chars_of(s: &str) -> (r: Vec<char>)
    ensures
        r@ == s@,
{
    let mut r: Vec<char> = Vec::new();
    for c in it: s.chars()
        invariant
            r@ == it.seq().take(it.index() as int),
            it.seq() == s@,
    {
        r.push(c);
    }
    r
}

/// Relies on std's `FromIterator<&char>` for `String`: the string holds the
/// characters of `v`, in order.
#[verifier::external_body]
pub(crate) fn string_of(v: &[char]) -> (r: String)
    ensures
        r@ == v@,
{
    String::from_iter(v)
}

/// Appends the characters of `src` to `out`.
pub fn push_all(out: &mut Vec<char>, src: &[char])
    ensures
        final(out)@ == old(out)@ + src@,
{
    let mut k: usize = 0;
    while k < src.len()
        invariant
            k <= src.len(),
            out@ == old(out)@ + src@.take(k as int),
        decreases src.len() - k,
    {
        out.push(src[k]);
        k += 1;
        assert(src@.take(k as int) =~= src@.take(k - 1).push(src@[k - 1]));
    }
    assert(src@.take(k as int) =~= src@);
}

/// Whether `p` occurs in `s` at index `i`.
pub fn matches_at_index(s: &[char], p: &[char], i: usize) -> (r: bool)
    ensures
        r == matches_at(s@, p@, i as int),
{
    if i > s.len() || p.len() > s.len() - i {
        return false;
    }
    let mut k: usize = 0;
    while k < p.len()
        invariant
            k <= p.len(),
            i + p.len() <= s.len(),
            forall|m: int| 0 <= m < k ==> s@[i + m] == p@[m],
        decreases p.len() - k,
    {
        if s[i + k] != p[k] {
            assert(s@.subrange(i as int, i + p.len())[k as int] != p@[k as int]);
            return false;
        }
        k += 1;
    }
    assert(s@.subrange(i as int, i + p.len()) =~= p@);
    true
}

/// The first index at or after `from` at which `p` occurs in `s`.
pub fn find_from(s: &[char], p: &[char], from: usize) -> (r: Option<usize>)
    ensures
        match r {
            Some(i) => from <= i && matches_at(s@, p@, i as int) && forall|j: int|
                from <= j < i ==> !#[trigger] matches_at(s@, p@, j),
            None => forall|j: int| from <= j ==> !#[trigger] matches_at(s@, p@, j),
        },
{
    if p.len() > s.len() {
        return None;
    }
    let last: usize = s.len() - p.len();
    if from > last {
        return None;
    }
    let mut i: usize = from;
    loop
        invariant
            from <= i <= last,
            p.len() <= s.len(),
            last == s.len() - p.len(),
            forall|j: int| from <= j < i ==> !#[trigger] matches_at(s@, p@, j),
        decreases last - i,
    {
        if matches_at_index(s, p, i) {
            return Some(i);
        }
        if i == last {
            return None;
        }
        i += 1;
    }
}

/// The first index at which `p` occurs in `s`.
pub fn find_first(s: &[char], p: &[char]) -> (r: Option<usize>)
    ensures
        match r {
            Some(i) => find(s@, p@) == Some(i as int) && is_first_match(s@, p@, i as int),
            None => find(s@, p@) is None && !contains(s@, p@),
        },
{
    let r = find_from(s, p, 0);
    match r {
        Some(i) => {
            proof {
                lemma_first_match_unique(s@, p@, i as int);
            }
        },
        None => {},
    }
    r
}

/// Whether `p` occurs in `s`.
pub fn contains_chars(s: &[char], p: &[char]) -> (r: bool)
    ensures
        r == contains(s@, p@),
{
    find_first(s, p).is_some()
}

/// Whether `s` begins with `p`.
pub fn starts_with_chars(s: &[char], p: &[char]) -> (r: bool)
    ensures
        r == matches_at(s@, p@, 0),
{
    matches_at_index(s, p, 0)
}

/// Every occurrence of `p` in `s` replaced by `r`.
pub fn replace_all_chars(s: &[char], p: &[char], r: &[char]) -> (out: Vec<char>)
    ensures
        out@ == replace_all(s@, p@, r@),
{
    if p.len() == 0 {
        let mut out: Vec<char> = Vec::new();
        push_all(&mut out, s);
        return out;
    }
    let mut out: Vec<char> = Vec::new();
    let mut i: usize = 0;
    assert(s@.skip(0) =~= s@);
    while i < s.len()
        invariant
            i <= s.len(),
            p.len() > 0,
            out@ + replace_all(s@.skip(i as int), p@, r@) == replace_all(s@, p@, r@),
        decreases s.len() - i,
    {
        let rest = Ghost(s@.skip(i as int));
        if matches_at_index(s, p, i) {
            proof {
                assert(rest@.take(p.len() as int) =~= s@.subrange(i as int, i + p.len()));
                assert(rest@.skip(p.len() as int) =~= s@.skip(i + p.len()));
            }
            push_all(&mut out, r);
            i += p.len();
            proof {
                assert(out@ + replace_all(s@.skip(i as int), p@, r@) =~= replace_all(s@, p@, r@));
            }
        } else {
            proof {
                if rest@.len() >= p.len() {
                    assert(rest@.take(p.len() as int) =~= s@.subrange(i as int, i + p.len()));
                }
                assert(rest@.skip(1) =~= s@.skip(i + 1));
                if rest@.len() < p.len() {
                    assert(seq![rest@[0]] + rest@.skip(1) =~= rest@);
                }
            }
            out.push(s[i]);
            i += 1;
            proof {
                assert(out@ + replace_all(s@.skip(i as int), p@, r@) =~= replace_all(s@, p@, r@));
            }
        }
    }
    proof {
        assert(s@.skip(i as int) =~= Seq::<char>::empty());
        assert(out@ + Seq::<char>::empty() =~= out@);
    }
    out
}

/// Every occurrence of `p` in `s` replaced by `r`.
pub fn replace_all_str(s: &str, p: &str, r: &str) -> (out: String)
    ensures
        out@ == replace_all(s@, p@, r@),
{
    let sv = chars_of(s);
    let pv = chars_of(p);
    let rv = chars_of(r);
    let out = replace_all_chars(sv.as_slice(), pv.as_slice(), rv.as_slice());
    string_of(out.as_slice())
}

/// The first occurrence of `p` in `s` replaced by `r`.
pub fn replace_first_str(s: &str, p: &str, r: &str) -> (out: String)
    ensures
        out@ == replace_first(s@, p@, r@),
{
    let sv = chars_of(s);
    let pv = chars_of(p);
    let rv = chars_of(r);
    match find_first(sv.as_slice(), pv.as_slice()) {
        Some(i) => {
            assert(matches_at(sv@, pv@, i as int));
            let slen: usize = sv.len();
            assert(i + pv@.len() <= slen);
            let end: usize = i + pv.len();
            let mut out: Vec<char> = Vec::new();
            let mut k: usize = 0;
            while k < i
                invariant
                    k <= i,
                    i + pv@.len() <= sv@.len(),
                    out@ == sv@.take(k as int),
                decreases i - k,
            {
                out.push(sv[k]);
                k += 1;
                assert(sv@.take(k as int) =~= sv@.take(k - 1).push(sv@[k - 1]));
            }
            push_all(&mut out, rv.as_slice());
            let mut k: usize = end;
            let ghost head = out@;
            while k < sv.len()
                invariant
                    i + pv@.len() <= k <= sv@.len(),
                    out@ == head + sv@.subrange(i + pv@.len(), k as int),
                decreases sv.len() - k,
            {
                out.push(sv[k]);
                k += 1;
                assert(sv@.subrange(i + pv@.len(), k as int) =~= sv@.subrange(
                    i + pv@.len(),
                    k - 1,
                ).push(sv@[k - 1]));
            }
            assert(sv@.subrange(i + pv@.len(), sv@.len() as int) =~= sv@.skip(i + pv@.len()));
            string_of(out.as_slice())
        },
        None => string_of(sv.as_slice()),
    }
}

proof fn lemma_digits_value_grows(s: Seq<char>, k: int)
    requires
        0 <= k <= s.len(),
        forall|i: int| 0 <= i < s.len() ==> is_digit(#[trigger] s[i]),
    ensures
        0 <= digits_value(s.take(k)) <= digits_value(s),
    decreases s.len(),
{
    if k == s.len() {
        assert(s.take(k) =~= s);
        if s.len() > 0 {
            lemma_digits_value_grows(s.drop_last(), k - 1);
            assert(s.drop_last().take(k - 1) =~= s.drop_last());
        }
    } else {
        assert(s.take(k) =~= s.drop_last().take(k));
        lemma_digits_value_grows(s.drop_last(), k);
        assert(is_digit(s.last()));
    }
}

/// The number a string of decimal digits spells, if it is one that fits in
/// a `u32`.
pub fn parse_decimal_u32(s: &[char]) -> (r: Option<u32>)
    ensures
        r == decimal_u32(s@),
{
    if s.len() == 0 {
        return None;
    }
    let mut k: usize = 0;
    while k < s.len()
        invariant
            k <= s@.len(),
            forall|i: int| 0 <= i < k ==> is_digit(#[trigger] s@[i]),
        decreases s.len() - k,
    {
        if !('0' <= s[k] && s[k] <= '9') {
            return None;
        }
        k += 1;
    }
    let mut acc: u64 = 0;
    let mut k: usize = 0;
    while k < s.len()
        invariant
            k <= s@.len(),
            forall|i: int| 0 <= i < s@.len() ==> is_digit(#[trigger] s@[i]),
            acc == digits_value(s@.take(k as int)),
            acc <= u32::MAX,
        decreases s.len() - k,
    {
        let d: u64 = ((s[k] as u32) - ('0' as u32)) as u64;
        proof {
            assert(s@.take(k + 1).drop_last() =~= s@.take(k as int));
            assert(is_digit(s@[k as int]));
        }
        let next: u64 = acc * 10 + d;
        if next > 0xffff_ffff {
            proof {
                lemma_digits_value_grows(s@, k + 1);
            }
            return None;
        }
        acc = next;
        k += 1;
    }
    proof {
        assert(s@.take(k as int) =~= s@);
    }
    Some(acc as u32)
}

proof fn lemma_strip_leading_step(s: Seq<char>, c: char, i: int)
    requires
        0 <= i < s.len(),
        s[i] == c,
    ensures
        strip_leading(s.skip(i), c) == strip_leading(s.skip(i + 1), c),
{
    assert(s.skip(i).skip(1) =~= s.skip(i + 1));
}

proof fn lemma_strip_trailing_step(s: Seq<char>, c: char, j: int)
    requires
        0 < j <= s.len(),
        s[j - 1] == c,
    ensures
        strip_trailing(s.take(j), c) == strip_trailing(s.take(j - 1), c),
{
    assert(s.take(j).drop_last() =~= s.take(j - 1));
}

/// `s` without the copies of `c` at either end.
pub fn trim_chars(s: &[char], c: char) -> (r: Vec<char>)
    ensures
        r@ == trim_char(s@, c),
{
    let mut a: usize = 0;
    assert(s@.skip(0) =~= s@);
    while a < s.len() && s[a] == c
        invariant
            a <= s@.len(),
            strip_leading(s@.skip(a as int), c) == strip_leading(s@, c),
        decreases s.len() - a,
    {
        proof {
            lemma_strip_leading_step(s@, c, a as int);
        }
        a += 1;
    }
    let ghost lead = s@.skip(a as int);
    assert(strip_leading(s@, c) == lead);
    let mut b: usize = s.len();
    assert(lead.take(lead.len() as int) =~= lead);
    while b > a && s[b - 1] == c
        invariant
            a <= b <= s@.len(),
            lead == s@.skip(a as int),
            strip_trailing(lead.take(b - a), c) == strip_trailing(lead, c),
        decreases b,
    {
        proof {
            lemma_strip_trailing_step(lead, c, b - a);
        }
        b -= 1;
    }
    let mut r: Vec<char> = Vec::new();
    let mut k: usize = a;
    while k < b
        invariant
            a <= k <= b <= s@.len(),
            r@ == s@.subrange(a as int, k as int),
        decreases b - k,
    {
        r.push(s[k]);
        k += 1;
        assert(s@.subrange(a as int, k as int) =~= s@.subrange(a as int, k - 1).push(s@[k - 1]));
    }
    assert(r@ =~= lead.take(b - a));
    r
}

/// The pieces of `s` between occurrences of `c`.
pub fn split_chars(s: &[char], c: char) -> (r: Vec<Vec<char>>)
    ensures
        r@.map_values(|p: Vec<char>| p@) == split_on(s@, c),
{
    let mut parts: Vec<Vec<char>> = Vec::new();
    let mut cur: Vec<char> = Vec::new();
    let mut i: usize = 0;
    assert(s@.take(0) =~= Seq::<char>::empty());
    assert(parts@.map_values(|p: Vec<char>| p@).push(cur@) =~= split_on(s@.take(0), c));
    while i < s.len()
        invariant
            i <= s@.len(),
            parts@.map_values(|p: Vec<char>| p@).push(cur@) == split_on(s@.take(i as int), c),
        decreases s.len() - i,
    {
        let ghost before = parts@.map_values(|p: Vec<char>| p@).push(cur@);
        proof {
            assert(s@.take(i + 1).drop_last() =~= s@.take(i as int));
            assert(s@.take(i + 1).last() == s@[i as int]);
        }
        if s[i] == c {
            parts.push(cur);
            cur = Vec::new();
            proof {
                assert(parts@.map_values(|p: Vec<char>| p@).push(cur@) =~= before.push(Seq::<char>::empty()));
            }
        } else {
            cur.push(s[i]);
            proof {
                assert(parts@.map_values(|p: Vec<char>| p@).push(cur@) =~= before.update(
                    before.len() - 1,
                    before.last().push(s@[i as int]),
                ));
            }
        }
        i += 1;
    }
    parts.push(cur);
    assert(s@.take(i as int) =~= s@);
    parts
}

/// The texts found between `start` and the next `end`, scanning from the
/// left; each search for `start` resumes at the `end` that closed the
/// previous text.
pub open spec fn elements_between(s: Seq<char>, start: Seq<char>, end: Seq<char>) -> Seq<Seq<char>>
    decreases s.len(),
{
    if start.len() == 0 {
        Seq::empty()
    } else {
        match find(s, start) {
            None => Seq::empty(),
            Some(i) => if 0 <= i && i + start.len() <= s.len() {
                let rest = s.skip(i + start.len());
                match find(rest, end) {
                    None => Seq::empty(),
                    Some(j) => if 0 <= j <= rest.len() {
                        seq![rest.take(j)] + elements_between(rest.skip(j), start, end)
                    } else {
                        Seq::empty()
                    },
                }
            } else {
                Seq::empty()
            },
        }
    }
}

/// The parts, with `sep` between each two.
pub open spec fn join(parts: Seq<Seq<char>>, sep: Seq<char>) -> Seq<char>
    decreases parts.len(),
{
    if parts.len() == 0 {
        Seq::empty()
    } else if parts.len() == 1 {
        parts[0]
    } else {
        join(parts.drop_last(), sep) + sep + parts.last()
    }
}

/// The characters of `s` from `a` up to `b`.
pub fn copy_range(s: &[char], a: usize, b: usize) -> (r: Vec<char>)
    requires
        a <= b <= s@.len(),
    ensures
        r@ == s@.subrange(a as int, b as int),
{
    let mut r: Vec<char> = Vec::new();
    let mut k: usize = a;
    while k < b
        invariant
            a <= k <= b <= s@.len(),
            r@ == s@.subrange(a as int, k as int),
        decreases b - k,
    {
        r.push(s[k]);
        k += 1;
        assert(s@.subrange(a as int, k as int) =~= s@.subrange(a as int, k - 1).push(s@[k - 1]));
    }
    r
}

/// The texts between `start` and `end` in `s`.
pub fn elements_between_chars(s: &[char], start: &[char], end: &[char]) -> (r: Vec<Vec<char>>)
    requires
        start@.len() > 0,
    ensures
        r@.map_values(|p: Vec<char>| p@) == elements_between(s@, start@, end@),
{
    let mut out: Vec<Vec<char>> = Vec::new();
    let mut remaining = copy_range(s, 0, s.len());
    assert(remaining@ =~= s@);
    loop
        invariant
            start@.len() > 0,
            out@.map_values(|p: Vec<char>| p@) + elements_between(remaining@, start@, end@)
                == elements_between(s@, start@, end@),
        decreases remaining@.len(),
    {
        let ghost before = out@.map_values(|p: Vec<char>| p@);
        match find_first(remaining.as_slice(), start) {
            None => {
                assert(out@.map_values(|p: Vec<char>| p@) =~= out@.map_values(|p: Vec<char>| p@) + elements_between(remaining@, start@, end@));
                return out;
            },
            Some(i) => {
                let rlen: usize = remaining.len();
                assert(matches_at(remaining@, start@, i as int));
                assert(i + start@.len() <= rlen);
                let from = i + start.len();
                let rest = copy_range(remaining.as_slice(), from, remaining.len());
                assert(rest@ =~= remaining@.skip(from as int));
                match find_first(rest.as_slice(), end) {
                    None => {
                        assert(out@.map_values(|p: Vec<char>| p@) =~= out@.map_values(|p: Vec<char>| p@) + elements_between(remaining@, start@, end@));
                        return out;
                    },
                    Some(j) => {
                        let piece = copy_range(rest.as_slice(), 0, j);
                        let next = copy_range(rest.as_slice(), j, rest.len());
                        assert(piece@ =~= rest@.take(j as int));
                        assert(next@ =~= rest@.skip(j as int));
                        let ghost tail = elements_between(next@, start@, end@);
                        assert(elements_between(remaining@, start@, end@) == seq![piece@] + tail);
                        out.push(piece);
                        assert(out@.map_values(|p: Vec<char>| p@) =~= before.push(piece@));
                        assert(before + (seq![piece@] + tail) =~= before.push(piece@) + tail);
                        remaining = next;
                    },
                }
            },
        }
    }
}

/// The parts joined with `sep` between each two.
pub fn join_chars(parts: &Vec<Vec<char>>, sep: &[char]) -> (r: Vec<char>)
    ensures
        r@ == join(parts@.map_values(|p: Vec<char>| p@), sep@),
{
    let ghost pv = parts@.map_values(|p: Vec<char>| p@);
    let mut r: Vec<char> = Vec::new();
    let mut k: usize = 0;
    while k < parts.len()
        invariant
            k <= parts@.len(),
            pv == parts@.map_values(|p: Vec<char>| p@),
            r@ == join(pv.take(k as int), sep@),
        decreases parts.len() - k,
    {
        proof {
            assert(pv.take(k + 1).drop_last() =~= pv.take(k as int));
            assert(pv[k as int] == parts@[k as int]@);
        }
        if k > 0 {
            push_all(&mut r, sep);
        } else {
            assert(pv.take(1)[0] == pv[0]);
        }
        push_all(&mut r, parts[k].as_slice());
        k += 1;
    }
    assert(pv.take(k as int) =~= pv);
    r
}

} // verus!
