//! Character-level string operations with their specifications.
//!
//! Strings are modelled by their view, a `Seq<char>`. The specification
//! functions below say what `str::starts_with`, `str::contains`,
//! `str::replace` and friends compute; the executable functions implement
//! them over character vectors and are proved against those statements.
use vstd::prelude::*;

verus! {

broadcast use vstd::string::group_string_axioms;

/// The texts of a list of strings.
pub open spec fn texts(v: Seq<String>) -> Seq<Seq<char>> {
    v.map_values(|s: String| s@)
}

/// `p` occurs in `s` starting at index `i`.
pub open spec fn occurs_at(s: Seq<char>, p: Seq<char>, i: int) -> bool {
    &&& 0 <= i
    &&& i + p.len() <= s.len()
    &&& s.subrange(i, i + p.len()) == p
}

/// `s` begins with `p`.
pub open spec fn starts_with(s: Seq<char>, p: Seq<char>) -> bool {
    occurs_at(s, p, 0)
}

/// `s` ends with `p`.
pub open spec fn ends_with(s: Seq<char>, p: Seq<char>) -> bool {
    occurs_at(s, p, s.len() - p.len())
}

/// `p` occurs somewhere in `s`.
pub open spec fn contains(s: Seq<char>, p: Seq<char>) -> bool {
    exists|i: int| occurs_at(s, p, i)
}

/// The result of replacing, from index `i` on, every non-overlapping
/// occurrence of `pat` (scanning left to right) by `rep`; the part of `s`
/// before `i` is dropped. An empty `pat` occurs before every character and
/// at the end, as with `str::replace`.
pub open spec fn replace_all_from(s: Seq<char>, pat: Seq<char>, rep: Seq<char>, i: int) -> Seq<char>
    decreases s.len() - i,
{
    if i < 0 || i > s.len() {
        Seq::empty()
    } else if pat.len() == 0 {
        if i == s.len() {
            rep
        } else {
            rep + seq![s[i]] + replace_all_from(s, pat, rep, i + 1)
        }
    } else if i == s.len() {
        Seq::empty()
    } else if occurs_at(s, pat, i) {
        rep + replace_all_from(s, pat, rep, i + pat.len())
    } else {
        seq![s[i]] + replace_all_from(s, pat, rep, i + 1)
    }
}

/// Replacing a pattern that does not occur (from `i` on) changes nothing.
pub proof fn lemma_replace_all_absent(s: Seq<char>, pat: Seq<char>, rep: Seq<char>, i: int)
    requires
        pat.len() > 0,
        0 <= i <= s.len(),
        forall|j: int| i <= j ==> !occurs_at(s, pat, j),
    ensures
        replace_all_from(s, pat, rep, i) == s.subrange(i, s.len() as int),
    decreases s.len() - i,
{
    if i < s.len() {
        lemma_replace_all_absent(s, pat, rep, i + 1);
        assert(seq![s[i]] + s.subrange(i + 1, s.len() as int) =~= s.subrange(i, s.len() as int));
    } else {
        assert(s.subrange(i, s.len() as int) =~= Seq::<char>::empty());
    }
}

/// `str::replace(s, pat, rep)`.
pub open spec fn replace_all(s: Seq<char>, pat: Seq<char>, rep: Seq<char>) -> Seq<char> {
    replace_all_from(s, pat, rep, 0)
}

/// Like `replace_all_from`, but only the first occurrence is replaced.
pub open spec fn replace_first_from(s: Seq<char>, pat: Seq<char>, rep: Seq<char>, i: int) -> Seq<char>
    decreases s.len() - i,
{
    if i < 0 || i > s.len() {
        Seq::empty()
    } else if occurs_at(s, pat, i) {
        rep + s.subrange(i + pat.len(), s.len() as int)
    } else if i == s.len() {
        Seq::empty()
    } else {
        seq![s[i]] + replace_first_from(s, pat, rep, i + 1)
    }
}

/// `str::replacen(s, pat, rep, 1)`.
pub open spec fn replace_first(s: Seq<char>, pat: Seq<char>, rep: Seq<char>) -> Seq<char> {
    replace_first_from(s, pat, rep, 0)
}

/// Appends `c` to `s` (`String::push`).
#[verifier::external_body]
pub(crate) fn push_char(s: &mut String, c: char)
    ensures
        final(s)@ == old(s)@.push(c),
{
    s.push(c);
}

/// The characters of `s`, in order.
pub fn chars_of(s: &str) -> (v: Vec<char>)
    ensures
        v@ == s@,
{
    let mut v: Vec<char> = Vec::new();
    for c in it: s.chars()
        invariant
            v@ == it.seq().take(it.index() as int),
    {
        v.push(c);
    }
    v
}

/// The string made of the characters of `v`.
pub fn string_of(v: &Vec<char>) -> (s: String)
    ensures
        s@ == v@,
{
    let mut s = String::new();
    for i in 0..v.len()
        invariant
            s@ == v@.take(i as int),
    {
        push_char(&mut s, v[i]);
        assert(v@.take(i as int).push(v@[i as int]) =~= v@.take(i + 1));
    }
    assert(v@.take(v.len() as int) =~= v@);
    s
}

/// Whether `p` occurs in `s` at index `i`.
pub fn matches_at(s: &Vec<char>, p: &Vec<char>, i: usize) -> (b: bool)
    ensures
        b == occurs_at(s@, p@, i as int),
{
    if i > s.len() || p.len() > s.len() - i {
        return false;
    }
    let mut k: usize = 0;
    while k < p.len()
        invariant
            i + p.len() <= s.len(),
            k <= p.len(),
            forall|j: int| 0 <= j < k ==> s@[i + j] == p@[j],
        decreases p.len() - k,
    {
        if s[i + k] != p[k] {
            assert(s@.subrange(i as int, i + p.len())[k as int] != p@[k as int]);
            return false;
        }
        k = k + 1;
    }
    assert(s@.subrange(i as int, i + p.len()) =~= p@);
    true
}

/// Whether `p` occurs anywhere in `s`.
pub fn vec_contains(s: &Vec<char>, p: &Vec<char>) -> (b: bool)
    ensures
        b == contains(s@, p@),
{
    let mut i: usize = 0;
    while i < s.len()
        invariant
            i <= s.len(),
            forall|j: int| 0 <= j < i ==> !occurs_at(s@, p@, j),
        decreases s.len() - i,
    {
        if matches_at(s, p, i) {
            return true;
        }
        i = i + 1;
    }
    if matches_at(s, p, i) {
        return true;
    }
    assert forall|j: int| !occurs_at(s@, p@, j) by {
        if 0 <= j && j < i {
        }
    }
    false
}

/// `s == t`.
pub fn str_eq(s: &str, t: &str) -> (b: bool)
    ensures
        b == (s@ == t@),
{
    let a = String::from_str(s);
    let b = String::from_str(t);
    a == b
}

/// `s.starts_with(p)`.
pub fn str_starts_with(s: &str, p: &str) -> (b: bool)
    ensures
        b == starts_with(s@, p@),
{
    let sv = chars_of(s);
    let pv = chars_of(p);
    matches_at(&sv, &pv, 0)
}

/// `s.ends_with(p)`.
pub fn str_ends_with(s: &str, p: &str) -> (b: bool)
    ensures
        b == ends_with(s@, p@),
{
    let sv = chars_of(s);
    let pv = chars_of(p);
    if pv.len() > sv.len() {
        return false;
    }
    matches_at(&sv, &pv, sv.len() - pv.len())
}

/// `s.contains(p)`.
pub fn str_contains(s: &str, p: &str) -> (b: bool)
    ensures
        b == contains(s@, p@),
{
    let sv = chars_of(s);
    let pv = chars_of(p);
    vec_contains(&sv, &pv)
}

/// Appends all of `v` to `out`.
fn push_all(out: &mut Vec<char>, v: &Vec<char>)
    ensures
        final(out)@ == old(out)@ + v@,
{
    let ghost before = out@;
    for k in 0..v.len()
        invariant
            out@ == before + v@.take(k as int),
    {
        out.push(v[k]);
        assert(before + v@.take(k + 1) =~= (before + v@.take(k as int)).push(v@[k as int]));
    }
    assert(v@.take(v.len() as int) =~= v@);
}

/// `s.replace(pat, rep)`: every non-overlapping occurrence of `pat`,
/// scanning from the left, replaced by `rep`.
pub fn replace_all_str(s: &str, pat: &str, rep: &str) -> (r: String)
    ensures
        r@ == replace_all(s@, pat@, rep@),
{
    let sv = chars_of(s);
    let pv = chars_of(pat);
    let rv = chars_of(rep);
    let mut out: Vec<char> = Vec::new();
    let mut i: usize = 0;
    while i < sv.len()
        invariant
            sv@ == s@,
            pv@ == pat@,
            rv@ == rep@,
            i <= sv.len(),
            out@ + replace_all_from(sv@, pv@, rv@, i as int) == replace_all_from(sv@, pv@, rv@, 0),
        decreases sv.len() - i,
    {
        let ghost before = out@;
        if pv.len() == 0 {
            push_all(&mut out, &rv);
            out.push(sv[i]);
            assert(before + replace_all_from(sv@, pv@, rv@, i as int) =~= out@ + replace_all_from(
                sv@,
                pv@,
                rv@,
                i + 1,
            ));
            i = i + 1;
        } else if matches_at(&sv, &pv, i) {
            push_all(&mut out, &rv);
            assert(before + replace_all_from(sv@, pv@, rv@, i as int) =~= out@ + replace_all_from(
                sv@,
                pv@,
                rv@,
                i + pv.len(),
            ));
            i = i + pv.len();
        } else {
            out.push(sv[i]);
            assert(before + replace_all_from(sv@, pv@, rv@, i as int) =~= out@ + replace_all_from(
                sv@,
                pv@,
                rv@,
                i + 1,
            ));
            i = i + 1;
        }
    }
    if pv.len() == 0 {
        push_all(&mut out, &rv);
    }
    assert(out@ =~= out@ + Seq::<char>::empty());
    string_of(&out)
}

/// `s.replacen(pat, rep, 1)`: the first occurrence of `pat` replaced by `rep`.
pub fn replace_first_str(s: &str, pat: &str, rep: &str) -> (r: String)
    ensures
        r@ == replace_first(s@, pat@, rep@),
{
    let sv = chars_of(s);
    let pv = chars_of(pat);
    let rv = chars_of(rep);
    let mut out: Vec<char> = Vec::new();
    let mut i: usize = 0;
    loop
        invariant
            sv@ == s@,
            pv@ == pat@,
            rv@ == rep@,
            i <= sv.len(),
            out@ + replace_first_from(sv@, pv@, rv@, i as int) == replace_first_from(sv@, pv@, rv@, 0),
        decreases sv.len() - i,
    {
        if matches_at(&sv, &pv, i) {
            let ghost before = out@;
            push_all(&mut out, &rv);
            let mut j = i + pv.len();
            let ghost mid = out@;
            while j < sv.len()
                invariant
                    i + pv@.len() <= j <= sv.len(),
                    out@ == mid + sv@.subrange(i + pv@.len(), j as int),
                decreases sv.len() - j,
            {
                out.push(sv[j]);
                assert(mid + sv@.subrange(i + pv@.len(), j + 1) =~= (mid + sv@.subrange(
                    i + pv@.len(),
                    j as int,
                )).push(sv@[j as int]));
                j = j + 1;
            }
            assert(out@ =~= before + replace_first_from(sv@, pv@, rv@, i as int));
            return string_of(&out);
        }
        if i == sv.len() {
            assert(out@ =~= out@ + replace_first_from(sv@, pv@, rv@, i as int));
            return string_of(&out);
        }
        let ghost before = out@;
        out.push(sv[i]);
        assert(before + replace_first_from(sv@, pv@, rv@, i as int) =~= out@ + replace_first_from(
            sv@,
            pv@,
            rv@,
            i + 1,
        ));
        i = i + 1;
    }
}

/// The decimal digit character for `d < 10`.
pub open spec fn digit_char(d: nat) -> char {
    if d == 0 { '0' }
    else if d == 1 { '1' }
    else if d == 2 { '2' }
    else if d == 3 { '3' }
    else if d == 4 { '4' }
    else if d == 5 { '5' }
    else if d == 6 { '6' }
    else if d == 7 { '7' }
    else if d == 8 { '8' }
    else { '9' }
}

/// The decimal representation of `n`, without sign or leading zeros
/// (what `n.to_string()` gives for an unsigned integer).
pub open spec fn decimal(n: nat) -> Seq<char>
    decreases n,
{
    if n < 10 {
        seq![digit_char(n)]
    } else {
        decimal(n / 10).push(digit_char(n % 10))
    }
}

fn digit_char_exec(d: u64) -> (c: char)
    requires
        d < 10,
    ensures
        c == digit_char(d as nat),
{
    if d == 0 { '0' }
    else if d == 1 { '1' }
    else if d == 2 { '2' }
    else if d == 3 { '3' }
    else if d == 4 { '4' }
    else if d == 5 { '5' }
    else if d == 6 { '6' }
    else if d == 7 { '7' }
    else if d == 8 { '8' }
    else { '9' }
}

/// `n.to_string()`.
pub fn decimal_string(n: u64) -> (s: String)
    ensures
        s@ == decimal(n as nat),
{
    let v = decimal_chars(n);
    string_of(&v)
}

fn decimal_chars(n: u64) -> (v: Vec<char>)
    ensures
        v@ == decimal(n as nat),
    decreases n,
{
    if n < 10 {
        let mut v: Vec<char> = Vec::new();
        v.push(digit_char_exec(n));
        v
    } else {
        let mut v = decimal_chars(n / 10);
        v.push(digit_char_exec(n % 10));
        v
    }
}

/// Appends `t` to `s`.
pub fn append_str(s: &mut String, t: &str)
    ensures
        final(s)@ == old(s)@ + t@,
{
    s.append(t);
}

/// `s + t`.
pub fn concat2(s: &str, t: &str) -> (r: String)
    ensures
        r@ == s@ + t@,
{
    let mut r = String::from_str(s);
    r.append(t);
    r
}

/// What `format!("{:?}", s)` gives for the string `s`: the text in double
/// quotes, with the characters that `char::escape_debug` escapes escaped.
pub uninterp spec fn debug_quoted(s: Seq<char>) -> Seq<char>;

/// `format!("{:?}", s)`: the `Debug` form of the string `s`. The result is
/// named, not described: nothing here states how characters are escaped.
#[verifier::external_body]
pub(crate) fn debug_quote(s: &str) -> (r: String)
    ensures
        r@ == debug_quoted(s@),
{
    format!("{:?}", s)
}

/// The index of the last `c` in `s`, or -1.
pub open spec fn last_index_of(s: Seq<char>, c: char, end: int) -> int
    decreases end,
{
    if end <= 0 {
        -1
    } else if s[end - 1] == c {
        end - 1
    } else {
        last_index_of(s, c, end - 1)
    }
}

/// The index of the first `c` in `s` at or after `i`, or the length of `s`.
pub open spec fn first_index_of(s: Seq<char>, c: char, i: int) -> int
    decreases s.len() - i,
{
    if i < 0 || i >= s.len() {
        s.len() as int
    } else if s[i] == c {
        i
    } else {
        first_index_of(s, c, i + 1)
    }
}

/// One past the index of the last `c` in `s` (0 when there is none).
pub fn after_last_index(s: &Vec<char>, c: char) -> (r: usize)
    ensures
        r == last_index_of(s@, c, s@.len() as int) + 1,
        r <= s@.len(),
{
    let mut end = s.len();
    while end > 0
        invariant
            end <= s.len(),
            last_index_of(s@, c, s@.len() as int) == last_index_of(s@, c, end as int),
        decreases end,
    {
        if s[end - 1] == c {
            return end;
        }
        end = end - 1;
    }
    0
}

/// The index of the first `c` in `s`, or its length.
pub fn first_index_exec(s: &Vec<char>, c: char) -> (r: usize)
    ensures
        r == first_index_of(s@, c, 0),
        r <= s@.len(),
{
    let mut i: usize = 0;
    while i < s.len()
        invariant
            i <= s.len(),
            first_index_of(s@, c, 0) == first_index_of(s@, c, i as int),
        decreases s.len() - i,
    {
        if s[i] == c {
            return i;
        }
        i = i + 1;
    }
    i
}

/// The characters of `s` from `from` up to `to`, as a string.
pub fn subrange_string(s: &Vec<char>, from: usize, to: usize) -> (r: String)
    requires
        from <= to <= s@.len(),
    ensures
        r@ == s@.subrange(from as int, to as int),
{
    let mut u: Vec<char> = Vec::new();
    let mut t = from;
    while t < to
        invariant
            from <= t <= to <= s@.len(),
            u@ == s@.subrange(from as int, t as int),
        decreases to - t,
    {
        u.push(s[t]);
        assert(s@.subrange(from as int, t + 1) =~= s@.subrange(from as int, t as int).push(s@[t as int]));
        t = t + 1;
    }
    string_of(&u)
}

} // verus!
