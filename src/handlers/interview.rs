use vstd::prelude::*;
use vstd::string::*;
use crate::event::Event;
use crate::text::{
    contains_text, has_prefix, last_at, last_occurrence, lemma_last_at_bounds, matches_at,
    no_newline, push_char, push_str, texts,
};
use crate::time::StartTime;
use super::opt_text;

verus! {

/// The attendee that marks an event as an interview.
pub const SCHEDULER: &'static str = "schedule@rose.greenhouse.io";

/// A title made by the auto-scheduler: `Please interview a candidate for `
/// followed by at least one character and no line break.
pub open spec fn is_scheduler_title(name: Seq<char>) -> bool {
    let p = "Please interview a candidate for "@;
    has_prefix(name, p) && name.len() > p.len() && no_newline(name.subrange(p.len() as int, name.len() as int))
}

/// The candidate named by one description line `Please interview NAME.`
pub open spec fn line_candidate(line: Seq<char>) -> Option<Seq<char>> {
    let p = "Please interview "@;
    if line.len() >= p.len() + 2 && has_prefix(line, p) && line.last() == '.' {
        Some(line.subrange(p.len() as int, line.len() - 1))
    } else {
        None
    }
}

/// Scans `d` from position `i` on, where the current line began at `start`:
/// the candidate named by the first line that names one.
pub open spec fn candidate_from(d: Seq<char>, start: int, i: int) -> Option<Seq<char>>
    decreases d.len() - i,
{
    if i < start || i > d.len() || start < 0 {
        None
    } else if i == d.len() || d[i] == '\n' {
        match line_candidate(d.subrange(start, i)) {
            Some(c) => Some(c),
            None => if i == d.len() { None } else { candidate_from(d, i + 1, i + 1) },
        }
    } else {
        candidate_from(d, start, i + 1)
    }
}

/// The candidate named by the first line of a description of the form
/// `Please interview NAME.`
pub open spec fn description_candidate(d: Seq<char>) -> Option<Seq<char>> {
    candidate_from(d, 0, 0)
}

/// The candidate named by a Greenhouse title `Please interview NAME for ROLE`
/// on one line: the longest non-empty NAME that leaves a non-empty ROLE.
pub open spec fn greenhouse_candidate(name: Seq<char>) -> Option<Seq<char>> {
    let p = "Please interview "@;
    if has_prefix(name, p) && no_newline(name) {
        match last_at(name, " for "@, p.len() + 1int, name.len() - 1int, name.len() as int) {
            Some(k) => Some(name.subrange(p.len() as int, k)),
            None => None,
        }
    } else {
        None
    }
}

/// The character of a note file name that stands for `c`: ASCII letters
/// lower-cased, spaces turned into hyphens.
pub open spec fn file_char(c: char) -> char {
    if c == ' ' {
        '-'
    } else if 'A' <= c <= 'Z' {
        ((c as u32) + 32) as char
    } else {
        c
    }
}

pub open spec fn file_name(name: Seq<char>) -> Seq<char> {
    name.map_values(|c: char| file_char(c))
}

/// `- **HHMM**: [[YYYYMMDDHHMM-file-name|Name Interview Notes]]`
pub open spec fn interview_entry(t: StartTime, candidate: Seq<char>) -> Seq<char> {
    "- **"@ + t.hhmm() + "**: [["@ + t.stamp() + "-"@ + file_name(candidate) + "|"@ + candidate
        + " Interview Notes]]"@
}

/// Renders interviews as a link to the candidate's dated note.
#[derive(Debug, Clone, Copy)]
pub struct InterviewEventHandler {}

impl InterviewEventHandler {
    pub open spec fn renders(&self, event: Event) -> Option<Seq<char>> {
        if !texts(event.attendees@).contains(SCHEDULER@) {
            None
        } else if is_scheduler_title(event.name@) {
            match description_candidate(event.description@) {
                Some(c) => Some(interview_entry(event.start_time, c)),
                None => None,
            }
        } else {
            match greenhouse_candidate(event.name@) {
                Some(c) => Some(interview_entry(event.start_time, c)),
                None => None,
            }
        }
    }

    pub fn build() -> (r: InterviewEventHandler) {
        InterviewEventHandler {}
    }

    /// Whether the scheduler is among the attendees.
    pub fn valid_for(&self, event: &Event) -> (r: bool)
        ensures
            r == texts(event.attendees@).contains(SCHEDULER@),
    {
        contains_text(&event.attendees, &String::from_str(SCHEDULER))
    }

    pub fn handle(&self, event: &Event) -> (r: Option<String>)
        requires
            event.start_time.wf(),
        ensures
            opt_text(r) == self.renders(*event),
    {
        if !self.valid_for(event) {
            return None;
        }
        let candidate = if is_scheduler_title_exec(event.name.as_str()) {
            description_candidate_exec(event.description.as_str())
        } else {
            greenhouse_candidate_exec(event.name.as_str())
        };
        match candidate {
            Some(name) => {
                let file = candidate_file_name(name.as_str());
                let mut filename = String::new();
                event.start_time.push_stamp(&mut filename);
                push_str(&mut filename, "-");
                push_str(&mut filename, file.as_str());
                Some(interview_agenda_entry(&event.start_time, filename.as_str(), name.as_str()))
            },
            None => None,
        }
    }
}

fn no_newline_from(s: &str, from: usize) -> (r: bool)
    requires
        from <= s@.len(),
    ensures
        r == no_newline(s@.subrange(from as int, s@.len() as int)),
{
    let n = s.unicode_len();
    let mut i = from;
    while i < n
        invariant
            n == s@.len(),
            from <= i <= n,
            forall|j: int| from <= j < i ==> s@[j] != '\n',
        decreases n - i,
    {
        if s.get_char(i) == '\n' {
            assert(s@.subrange(from as int, n as int)[i - from] == '\n');
            return false;
        }
        i = i + 1;
    }
    assert(forall|j: int| 0 <= j < n - from ==> s@.subrange(from as int, n as int)[j] == s@[from + j]);
    true
}

fn is_scheduler_title_exec(name: &str) -> (r: bool)
    ensures
        r == is_scheduler_title(name@),
{
    let p = "Please interview a candidate for ";
    let plen = p.unicode_len();
    matches_at(name, 0, p) && name.unicode_len() > plen && no_newline_from(name, plen)
}

fn line_candidate_exec(d: &str, start: usize, end: usize) -> (r: Option<String>)
    requires
        start <= end <= d@.len(),
    ensures
        opt_text(r) == line_candidate(d@.subrange(start as int, end as int)),
{
    let p = "Please interview ";
    proof {
        reveal_strlit("Please interview ");
    }
    let plen = p.unicode_len();
    let ghost line = d@.subrange(start as int, end as int);
    if end - start >= plen + 2 && matches_at(d, start, p) && d.get_char(end - 1) == '.' {
        assert(line.subrange(0, plen as int) =~= d@.subrange(start as int, start + plen));
        let c = d.substring_char(start + plen, end - 1);
        assert(c@ =~= line.subrange(plen as int, line.len() - 1));
        Some(String::from_str(c))
    } else {
        proof {
            if line.len() >= plen + 2 && has_prefix(line, p@) {
                assert(line.subrange(0, plen as int) =~= d@.subrange(start as int, start + plen));
                assert(line.last() == d@[end - 1]);
            }
        }
        None
    }
}

/// The candidate named by the first description line of the form
/// `Please interview NAME.`
pub fn description_candidate_exec(d: &str) -> (r: Option<String>)
    ensures
        opt_text(r) == description_candidate(d@),
{
    let n = d.unicode_len();
    let mut start: usize = 0;
    let mut i: usize = 0;
    loop
        invariant
            n == d@.len(),
            start <= i <= n,
            description_candidate(d@) == candidate_from(d@, start as int, i as int),
        decreases n - i,
    {
        if i == n || d.get_char(i) == '\n' {
            let c = line_candidate_exec(d, start, i);
            if c.is_some() || i == n {
                return c;
            }
            start = i + 1;
        }
        i = i + 1;
    }
}

/// The candidate named by a Greenhouse title `Please interview NAME for ROLE`.
pub fn greenhouse_candidate_exec(name: &str) -> (r: Option<String>)
    ensures
        opt_text(r) == greenhouse_candidate(name@),
{
    let p = "Please interview ";
    proof {
        reveal_strlit("Please interview ");
    }
    let plen = p.unicode_len();
    let n = name.unicode_len();
    if !matches_at(name, 0, p) || !no_newline_from(name, 0) || n == 0 {
        proof {
            assert(name@.subrange(0, n as int) =~= name@);
        }
        return None;
    }
    assert(name@.subrange(0, n as int) =~= name@);
    match last_occurrence(name, " for ", plen + 1, n - 1, n) {
        Some(k) => {
            proof {
                lemma_last_at_bounds(name@, " for "@, plen + 1, n - 1, n as int);
            }
            Some(String::from_str(name.substring_char(plen, k)))
        },
        None => None,
    }
}

/// The candidate's name as a note file name: lower-case, hyphens for spaces.
pub fn candidate_file_name(name: &str) -> (r: String)
    ensures
        r@ == file_name(name@),
{
    let n = name.unicode_len();
    let mut s = String::new();
    let mut i: usize = 0;
    while i < n
        invariant
            n == name@.len(),
            i <= n,
            s@ == file_name(name@.subrange(0, i as int)),
        decreases n - i,
    {
        let c = name.get_char(i);
        let f = if c == ' ' {
            '-'
        } else if 'A' <= c && c <= 'Z' {
            ((c as u8) + 32) as char
        } else {
            c
        };
        push_char(&mut s, f);
        assert(file_name(name@.subrange(0, i + 1)) =~= file_name(name@.subrange(0, i as int)).push(file_char(c)));
        i = i + 1;
    }
    assert(name@.subrange(0, n as int) =~= name@);
    s
}

/// `- **HHMM**: [[filename|Name Interview Notes]]`
fn interview_agenda_entry(date: &StartTime, filename: &str, candidate_name: &str) -> (r: String)
    requires
        date.wf(),
    ensures
        r@ == "- **"@ + date.hhmm() + "**: [["@ + filename@ + "|"@ + candidate_name@ + " Interview Notes]]"@,
{
    let mut s = String::new();
    push_str(&mut s, "- **");
    date.push_hhmm(&mut s);
    push_str(&mut s, "**: [[");
    push_str(&mut s, filename);
    push_str(&mut s, "|");
    push_str(&mut s, candidate_name);
    push_str(&mut s, " Interview Notes]]");
    assert(s@ =~= "- **"@ + date.hhmm() + "**: [["@ + filename@ + "|"@ + candidate_name@ + " Interview Notes]]"@);
    s
}

} // verus!
