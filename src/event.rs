//! The normalized calendar event that filters and handlers read.

use vstd::prelude::*;
use vstd::string::*;
use crate::text::texts;
use crate::time::StartTime;

verus! {

/// `s` ends with `p`.
pub open spec fn ends_with(s: Seq<char>, p: Seq<char>) -> bool {
    p.len() <= s.len() && s.subrange(s.len() - p.len(), s.len() as int) == p
}

/// `s` with every trailing repetition of `p` removed; unchanged when `p` is empty.
pub open spec fn trim_suffix(s: Seq<char>, p: Seq<char>) -> Seq<char>
    decreases s.len(),
{
    if p.len() > 0 && ends_with(s, p) {
        trim_suffix(s.subrange(0, s.len() - p.len()), p)
    } else {
        s
    }
}

/// One pass over the suffixes: `s` with each suffix of `ps` trimmed in turn,
/// first to last.
pub open spec fn strip_suffixes(s: Seq<char>, ps: Seq<Seq<char>>) -> Seq<char>
    decreases ps.len(),
{
    if ps.len() == 0 {
        s
    } else {
        trim_suffix(strip_suffixes(s, ps.drop_last()), ps.last())
    }
}

/// Passes over the suffixes repeated until one removes nothing: the name
/// then ends with none of them.
pub open spec fn strip_all_suffixes(s: Seq<char>, ps: Seq<Seq<char>>) -> Seq<char>
    decreases s.len(),
{
    let t = strip_suffixes(s, ps);
    if t.len() < s.len() {
        strip_all_suffixes(t, ps)
    } else {
        s
    }
}

/// The attendees other than `user`, in their order.
pub open spec fn without_user(attendees: Seq<Seq<char>>, user: Seq<char>) -> Seq<Seq<char>> {
    attendees.filter(|a: Seq<char>| a != user)
}

proof fn lemma_without_user_push(s: Seq<Seq<char>>, x: Seq<char>, user: Seq<char>)
    ensures
        without_user(s.push(x), user) == if x != user {
            without_user(s, user).push(x)
        } else {
            without_user(s, user)
        },
{
    reveal(Seq::filter);
    assert(s.push(x).drop_last() =~= s);
}

/// Trimming a suffix a second time changes nothing, and afterwards the text
/// no longer ends with a non-empty suffix.
pub proof fn lemma_trim_suffix_idempotent(s: Seq<char>, p: Seq<char>)
    ensures
        trim_suffix(trim_suffix(s, p), p) == trim_suffix(s, p),
        p.len() > 0 ==> !ends_with(trim_suffix(s, p), p),
    decreases s.len(),
{
    if p.len() > 0 && ends_with(s, p) {
        lemma_trim_suffix_idempotent(s.subrange(0, s.len() - p.len()), p);
    }
}

/// Trimming keeps a prefix, and a non-empty suffix that is there shortens it.
proof fn lemma_trim_suffix_prefix(s: Seq<char>, p: Seq<char>)
    ensures
        trim_suffix(s, p).len() <= s.len(),
        trim_suffix(s, p) == s.subrange(0, trim_suffix(s, p).len() as int),
        p.len() > 0 && ends_with(s, p) ==> trim_suffix(s, p).len() < s.len(),
    decreases s.len(),
{
    if p.len() > 0 && ends_with(s, p) {
        let t = s.subrange(0, s.len() - p.len());
        lemma_trim_suffix_prefix(t, p);
        assert(t.subrange(0, trim_suffix(t, p).len() as int) =~= s.subrange(0, trim_suffix(t, p).len() as int));
    } else {
        assert(s.subrange(0, s.len() as int) =~= s);
    }
}

/// A pass keeps a prefix; where it shortens nothing, the text ends with none
/// of the non-empty suffixes.
proof fn lemma_strip_suffixes_prefix(s: Seq<char>, ps: Seq<Seq<char>>)
    ensures
        strip_suffixes(s, ps).len() <= s.len(),
        strip_suffixes(s, ps) == s.subrange(0, strip_suffixes(s, ps).len() as int),
        strip_suffixes(s, ps).len() == s.len() ==> forall|i: int|
            0 <= i < ps.len() && (#[trigger] ps[i]).len() > 0 ==> !ends_with(s, ps[i]),
    decreases ps.len(),
{
    if ps.len() > 0 {
        let u = strip_suffixes(s, ps.drop_last());
        lemma_strip_suffixes_prefix(s, ps.drop_last());
        lemma_trim_suffix_prefix(u, ps.last());
        let t = strip_suffixes(s, ps);
        assert(u.subrange(0, t.len() as int) =~= s.subrange(0, t.len() as int));
        if t.len() == s.len() {
            assert(u =~= s);
            assert forall|i: int| 0 <= i < ps.len() && (#[trigger] ps[i]).len() > 0 implies !ends_with(s, ps[i]) by {
                if i < ps.len() - 1 {
                    assert(ps.drop_last()[i] == ps[i]);
                }
            }
        }
    }
}

/// The fully stripped name ends with no non-empty configured suffix.
pub proof fn lemma_strip_all_suffixes_clean(s: Seq<char>, ps: Seq<Seq<char>>)
    ensures
        strip_suffixes(strip_all_suffixes(s, ps), ps) == strip_all_suffixes(s, ps),
        forall|i: int| 0 <= i < ps.len() && (#[trigger] ps[i]).len() > 0 ==> !ends_with(strip_all_suffixes(s, ps), ps[i]),
    decreases s.len(),
{
    let t = strip_suffixes(s, ps);
    lemma_strip_suffixes_prefix(s, ps);
    if t.len() < s.len() {
        lemma_strip_all_suffixes_clean(t, ps);
    } else {
        assert(s.subrange(0, s.len() as int) =~= s);
    }
}

/// Stripping the suffixes from a name already stripped changes nothing.
pub proof fn lemma_strip_all_suffixes_idempotent(s: Seq<char>, ps: Seq<Seq<char>>)
    ensures
        strip_all_suffixes(strip_all_suffixes(s, ps), ps) == strip_all_suffixes(s, ps),
{
    lemma_strip_all_suffixes_clean(s, ps);
}

/// A calendar event, normalized for the agenda.
#[derive(Debug, Clone)]
pub struct Event {
    /// Local start time; the first minute of 1970 for an all-day event.
    pub start_time: StartTime,
    /// Display title, with the configured suffixes removed.
    pub name: String,
    /// Free-text body, possibly empty.
    pub description: String,
    /// Calendar colour tag of the event.
    pub color: String,
    /// Attendee e-mail addresses other than the user's own.
    pub attendees: Vec<String>,
}

/// Whether the first `n` characters of `s` end with `p`.
fn ends_with_within(s: &str, n: usize, p: &str) -> (r: bool)
    requires
        n <= s@.len(),
    ensures
        r == (p@.len() <= n && s@.subrange(n - p@.len(), n as int) == p@),
{
    let plen = p.unicode_len();
    if plen > n {
        return false;
    }
    let start = n - plen;
    let mut i: usize = 0;
    while i < plen
        invariant
            plen == p@.len(),
            start + plen == n,
            n <= s@.len(),
            i <= plen,
            forall|j: int| 0 <= j < i ==> s@[start + j] == p@[j],
        decreases plen - i,
    {
        if s.get_char(start + i) != p.get_char(i) {
            assert(s@.subrange(start as int, n as int)[i as int] != p@[i as int]);
            return false;
        }
        i = i + 1;
    }
    assert(s@.subrange(start as int, n as int) =~= p@);
    true
}

/// `s` with every trailing repetition of `p` removed.
pub fn trim_end_matches(s: &str, p: &str) -> (r: String)
    ensures
        r@ == trim_suffix(s@, p@),
{
    let plen = p.unicode_len();
    let mut n = s.unicode_len();
    if plen == 0 {
        return String::from_str(s);
    }
    assert(s@.subrange(0, n as int) =~= s@);
    while ends_with_within(s, n, p)
        invariant
            plen == p@.len(),
            plen > 0,
            n <= s@.len(),
            trim_suffix(s@, p@) == trim_suffix(s@.subrange(0, n as int), p@),
        decreases n,
    {
        proof {
            let t = s@.subrange(0, n as int);
            assert(t.subrange(n - plen, n as int) =~= s@.subrange(n - plen, n as int));
            assert(t.subrange(0, n - plen) =~= s@.subrange(0, n - plen));
        }
        n = n - plen;
    }
    proof {
        let t = s@.subrange(0, n as int);
        if plen <= n {
            assert(t.subrange(n - plen, n as int) =~= s@.subrange(n - plen, n as int));
        }
    }
    String::from_str(s.substring_char(0, n))
}

/// One pass: each suffix of `sfx` trimmed in turn, first to last.
fn strip_once(name: &String, sfx: &Vec<String>) -> (r: String)
    ensures
        r@ == strip_suffixes(name@, texts(sfx@)),
{
    let mut trimmed = name.clone();
    let mut k: usize = 0;
    while k < sfx.len()
        invariant
            k <= sfx@.len(),
            trimmed@ == strip_suffixes(name@, texts(sfx@.subrange(0, k as int))),
        decreases sfx@.len() - k,
    {
        proof {
            let ps = texts(sfx@.subrange(0, k + 1));
            assert(ps.drop_last() =~= texts(sfx@.subrange(0, k as int)));
        }
        trimmed = trim_end_matches(trimmed.as_str(), sfx[k].as_str());
        k = k + 1;
    }
    assert(sfx@.subrange(0, sfx@.len() as int) =~= sfx@);
    trimmed
}

impl Event {
    /// Builds an event, leaving out the user's own address from the attendees
    /// and trimming each configured suffix from the name in turn.
    pub fn build(
        user_email: &str,
        strip_event_suffixes: &Vec<String>,
        start: StartTime,
        name: String,
        description: String,
        color: String,
        attendees: Vec<String>,
    ) -> (r: Event)
        ensures
            r.start_time == start,
            r.name@ == strip_all_suffixes(name@, texts(strip_event_suffixes@)),
            forall|i: int| 0 <= i < strip_event_suffixes@.len() && (#[trigger] strip_event_suffixes@[i])@.len() > 0
                ==> !ends_with(r.name@, strip_event_suffixes@[i]@),
            r.description@ == description@,
            r.color@ == color@,
            texts(r.attendees@) == without_user(texts(attendees@), user_email@),
            forall|i: int| 0 <= i < r.attendees@.len() ==> (#[trigger] r.attendees@[i])@ != user_email@,
    {
        let user = String::from_str(user_email);
        let mut kept: Vec<String> = Vec::new();
        let mut i: usize = 0;
        while i < attendees.len()
            invariant
                i <= attendees@.len(),
                user@ == user_email@,
                texts(kept@) == without_user(texts(attendees@.subrange(0, i as int)), user_email@),
            decreases attendees@.len() - i,
        {
            let a = &attendees[i];
            proof {
                let pre = texts(attendees@.subrange(0, i as int));
                assert(texts(attendees@.subrange(0, i + 1)) =~= pre.push(a@));
                lemma_without_user_push(pre, a@, user_email@);
            }
            if !a.eq(&user) {
                let c = a.clone();
                let ghost before = kept@;
                kept.push(c);
                proof {
                    assert(texts(kept@) =~= texts(before).push(a@));
                }
            }
            i = i + 1;
        }
        assert(attendees@.subrange(0, attendees@.len() as int) =~= attendees@);
        proof {
            assert forall|i: int| 0 <= i < kept@.len() implies (#[trigger] kept@[i])@ != user_email@ by {
                texts(attendees@).lemma_filter_pred(|a: Seq<char>| a != user_email@, i);
                assert(texts(kept@)[i] == kept@[i]@);
            }
        }

        let mut trimmed = name;
        let ghost ps = texts(strip_event_suffixes@);
        loop
            invariant
                ps == texts(strip_event_suffixes@),
                strip_all_suffixes(name@, ps) == strip_all_suffixes(trimmed@, ps),
            ensures
                ps == texts(strip_event_suffixes@),
                strip_all_suffixes(name@, ps) == trimmed@,
            decreases trimmed@.len(),
        {
            let next = strip_once(&trimmed, strip_event_suffixes);
            proof {
                lemma_strip_suffixes_prefix(trimmed@, ps);
            }
            if next.as_str().unicode_len() < trimmed.as_str().unicode_len() {
                trimmed = next;
            } else {
                assert(strip_all_suffixes(trimmed@, ps) == trimmed@);
                break;
            }
        }
        proof {
            lemma_strip_all_suffixes_clean(name@, ps);
            assert forall|i: int| 0 <= i < strip_event_suffixes@.len() && (#[trigger] strip_event_suffixes@[i])@.len() > 0
                implies !ends_with(trimmed@, strip_event_suffixes@[i]@) by {
                assert(ps[i] == strip_event_suffixes@[i]@);
            }
        }
        Event { start_time: start, name: trimmed, description, color, attendees: kept }
    }
}

impl Default for Event {
    fn default() -> (r: Event)
        ensures
            r.start_time == (StartTime { year: 1970, month: 1, day: 1, hour: 0, minute: 0 }),
            r.name@.len() == 0,
            r.description@.len() == 0,
            r.color@.len() == 0,
            r.attendees@.len() == 0,
    {
        Event {
            start_time: StartTime::epoch(),
            name: String::new(),
            description: String::new(),
            color: String::new(),
            attendees: Vec::new(),
        }
    }
}

} // verus!
