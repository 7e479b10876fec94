//! Character-level helpers shared by the event model and the handlers.

use vstd::prelude::*;
use vstd::string::*;

verus! {

/// Relies on `String::push`: the character is appended at the end.
#[verifier::external_body]
pub(crate) fn push_char(s: &mut String, c: char)
    ensures
        final(s)@ == old(s)@.push(c),
{
    s.push(c)
}

/// The decimal digit `d` (below ten) as a character.
pub open spec fn digit_char(d: int) -> char {
    if d == 0 { '0' }
    else if d == 1 { '1' }
    else if d == 2 { '2' }
    else if d == 3 { '3' }
    else if d == 4 { '4' }
    else if d == 5 { '5' }
    else if d == 6 { '6' }
    else if d == 7 { '7' }
    else if d == 8 { '8' }
    else { '9' }
}

/// `n` (below one hundred) as two zero-padded digits.
pub open spec fn two_digits(n: int) -> Seq<char> {
    seq![digit_char(n / 10), digit_char(n % 10)]
}

/// `n` (below ten thousand) as four zero-padded digits.
pub open spec fn four_digits(n: int) -> Seq<char> {
    two_digits(n / 100) + two_digits(n % 100)
}

fn exec_digit_char(d: u32) -> (c: char)
    requires
        d < 10,
    ensures
        c == digit_char(d as int),
{
    if d == 0 { '0' }
    else if d == 1 { '1' }
    else if d == 2 { '2' }
    else if d == 3 { '3' }
    else if d == 4 { '4' }
    else if d == 5 { '5' }
    else if d == 6 { '6' }
    else if d == 7 { '7' }
    else if d == 8 { '8' }
    else { '9' }
}

/// Appends `n` as two zero-padded digits.
pub fn push_two_digits(s: &mut String, n: u32)
    requires
        n < 100,
    ensures
        final(s)@ == old(s)@ + two_digits(n as int),
{
    push_char(s, exec_digit_char(n / 10));
    push_char(s, exec_digit_char(n % 10));
    assert(final(s)@ =~= old(s)@ + two_digits(n as int));
}

/// Appends `n` as four zero-padded digits.
pub fn push_four_digits(s: &mut String, n: u32)
    requires
        n < 10000,
    ensures
        final(s)@ == old(s)@ + four_digits(n as int),
{
    push_two_digits(s, n / 100);
    push_two_digits(s, n % 100);
    assert(final(s)@ =~= old(s)@ + four_digits(n as int));
}

/// Appends the characters of `t`.
pub fn push_str(s: &mut String, t: &str)
    ensures
        final(s)@ == old(s)@ + t@,
{
    s.append(t);
}

/// The texts held by a list of strings.
pub open spec fn texts(v: Seq<String>) -> Seq<Seq<char>> {
    v.map_values(|s: String| s@)
}

/// `p` occurs in `s` starting at position `k`.
pub open spec fn has_at(s: Seq<char>, k: int, p: Seq<char>) -> bool {
    0 <= k && k + p.len() <= s.len() && s.subrange(k, k + p.len()) == p
}

/// `s` starts with `p`.
pub open spec fn has_prefix(s: Seq<char>, p: Seq<char>) -> bool {
    has_at(s, 0, p)
}

/// No character of `s` is a line break.
pub open spec fn no_newline(s: Seq<char>) -> bool {
    forall|i: int| 0 <= i < s.len() ==> s[i] != '\n'
}

/// The first position at or after `i` that holds `c`, or the length of `s`.
pub open spec fn index_of(s: Seq<char>, c: char, i: int) -> int
    decreases s.len() - i,
{
    if i < 0 || i >= s.len() {
        s.len() as int
    } else if s[i] == c {
        i
    } else {
        index_of(s, c, i + 1)
    }
}

/// The largest `j` with `lo <= j <= k` at which `p` occurs and ends no later
/// than `hi`.
pub open spec fn last_at(s: Seq<char>, p: Seq<char>, lo: int, hi: int, k: int) -> Option<int>
    decreases k - lo + 1,
{
    if k < lo {
        None
    } else if k + p.len() <= hi && has_at(s, k, p) {
        Some(k)
    } else {
        last_at(s, p, lo, hi, k - 1)
    }
}

/// `index_of` stays within the text, skips no occurrence, and lands on one
/// unless it reached the end.
pub proof fn lemma_index_of_bounds(s: Seq<char>, c: char, i: int)
    requires
        0 <= i <= s.len(),
    ensures
        i <= index_of(s, c, i) <= s.len(),
        forall|j: int| i <= j < index_of(s, c, i) ==> s[j] != c,
        index_of(s, c, i) < s.len() ==> s[index_of(s, c, i)] == c,
    decreases s.len() - i,
{
    if i < s.len() && s[i] != c {
        lemma_index_of_bounds(s, c, i + 1);
    }
}

/// What `last_at` finds is an occurrence within the bounds searched.
pub proof fn lemma_last_at_bounds(s: Seq<char>, p: Seq<char>, lo: int, hi: int, k: int)
    ensures
        last_at(s, p, lo, hi, k) matches Some(j) ==> lo <= j <= k && j + p.len() <= hi && has_at(s, j, p),
    decreases k - lo + 1,
{
    if k >= lo && !(k + p.len() <= hi && has_at(s, k, p)) {
        lemma_last_at_bounds(s, p, lo, hi, k - 1);
    }
}

/// The first position at or after `from` that holds `c`, or the length.
pub fn find_char(s: &str, c: char, from: usize) -> (r: usize)
    requires
        from <= s@.len(),
    ensures
        r == index_of(s@, c, from as int),
        from <= r <= s@.len(),
{
    let n = s.unicode_len();
    let mut i = from;
    while i < n
        invariant
            n == s@.len(),
            from <= i <= n,
            index_of(s@, c, from as int) == index_of(s@, c, i as int),
        decreases n - i,
    {
        if s.get_char(i) == c {
            return i;
        }
        i = i + 1;
    }
    i
}

/// Whether `p` occurs in `s` starting at `k`.
pub fn matches_at(s: &str, k: usize, p: &str) -> (r: bool)
    ensures
        r == has_at(s@, k as int, p@),
{
    let n = s.unicode_len();
    let plen = p.unicode_len();
    if k > n || plen > n - k {
        return false;
    }
    let mut i: usize = 0;
    while i < plen
        invariant
            n == s@.len(),
            plen == p@.len(),
            k + plen <= n,
            i <= plen,
            forall|j: int| 0 <= j < i ==> s@[k + j] == p@[j],
        decreases plen - i,
    {
        if s.get_char(k + i) != p.get_char(i) {
            assert(s@.subrange(k as int, k + plen)[i as int] != p@[i as int]);
            return false;
        }
        i = i + 1;
    }
    assert(s@.subrange(k as int, k + plen) =~= p@);
    true
}

/// The largest `j` with `lo <= j <= k` at which `p` occurs and ends no later
/// than `hi`.
pub fn last_occurrence(s: &str, p: &str, lo: usize, hi: usize, k: usize) -> (r: Option<usize>)
    requires
        1 <= lo,
    ensures
        r matches Some(j) ==> last_at(s@, p@, lo as int, hi as int, k as int) == Some(j as int),
        r is None ==> last_at(s@, p@, lo as int, hi as int, k as int) is None,
{
    let plen = p.unicode_len();
    let mut j = k;
    while j >= lo
        invariant
            plen == p@.len(),
            1 <= lo,
            last_at(s@, p@, lo as int, hi as int, k as int) == last_at(s@, p@, lo as int, hi as int, j as int),
        decreases j,
    {
        if plen <= hi && j <= hi - plen && matches_at(s, j, p) {
            return Some(j);
        }
        j = j - 1;
    }
    None
}

/// Whether `v` holds a string equal to `t`.
pub fn contains_text(v: &Vec<String>, t: &String) -> (r: bool)
    ensures
        r == texts(v@).contains(t@),
{
    let mut i: usize = 0;
    while i < v.len()
        invariant
            i <= v@.len(),
            forall|j: int| 0 <= j < i ==> v@[j]@ != t@,
        decreases v@.len() - i,
    {
        if v[i].eq(t) {
            assert(texts(v@)[i as int] == t@);
            return true;
        }
        i = i + 1;
    }
    assert(forall|j: int| 0 <= j < texts(v@).len() ==> texts(v@)[j] != t@);
    false
}

} // verus!
