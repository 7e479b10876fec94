//! Exclusion filters: an event is left out of the agenda when any filter
//! excludes it.

use vstd::prelude::*;
use vstd::string::*;
use crate::event::Event;
use crate::text::{contains_text, texts};

verus! {

#[verifier::external_type_specification]
#[verifier::external_body]
pub struct ExRegex(regex::Regex);

#[verifier::external_type_specification]
#[verifier::external_body]
pub struct ExRegexError(regex::Error);

/// Whether the `regex` crate accepts `pattern`.
pub uninterp spec fn regex_compiles(pattern: Seq<char>) -> bool;

/// Whether the regular expression `pattern` matches somewhere in `text`.
pub uninterp spec fn regex_finds(pattern: Seq<char>, text: Seq<char>) -> bool;

/// Relies on `regex::Regex::new`: whether it accepts a pattern depends on the
/// pattern alone.
#[verifier::external_body]
fn compile(source: &str) -> (r: Result<regex::Regex, regex::Error>)
    ensures
        r is Ok <==> regex_compiles(source@),
{
    regex::Regex::new(source)
}

/// A regular expression together with the text it was compiled from.
#[derive(Debug)]
pub struct NamePattern {
    source: String,
    compiled: regex::Regex,
}

/// Relies on `regex::Regex::is_match`: whether the expression matches
/// anywhere in the text. `compiled` is only ever made from `source` by
/// `NamePattern::new`.
#[verifier::external_body]
fn is_match(p: &NamePattern, text: &str) -> (r: bool)
    ensures
        r == regex_finds(p.pattern(), text@),
{
    p.compiled.is_match(text)
}

impl NamePattern {
    /// The text of the expression.
    pub closed spec fn pattern(&self) -> Seq<char> {
        self.source@
    }

    /// Compiles `source`; `None` where it is no valid expression.
    pub fn new(source: &str) -> (r: Option<NamePattern>)
        ensures
            r is Some <==> regex_compiles(source@),
            r matches Some(p) ==> p.pattern() == source@,
    {
        match compile(source) {
            Ok(compiled) => Some(NamePattern { source: String::from_str(source), compiled }),
            Err(_) => None,
        }
    }

    /// Whether the expression matches somewhere in `text`.
    pub fn matches(&self, text: &str) -> (r: bool)
        ensures
            r == regex_finds(self.pattern(), text@),
    {
        is_match(self, text)
    }
}

/// Excludes events whose colour is one of the ignored colours.
#[derive(Debug, Clone)]
pub struct ColourFilter {
    pub colours: Vec<String>,
}

/// Excludes events whose name any of the ignored expressions matches.
#[derive(Debug)]
pub struct RegexFilter {
    pub patterns: Vec<NamePattern>,
}

/// One filter of the chain.
#[derive(Debug)]
pub enum EventFilter {
    Colour(ColourFilter),
    Regex(RegexFilter),
}

/// Why the filters could not be set up.
#[derive(Debug, Clone, Copy, PartialEq, Eq)]
pub enum FilterError {
    /// The ignored expression at this index is not a valid one.
    InvalidPattern(usize),
}

impl ColourFilter {
    pub open spec fn excludes(&self, event: Event) -> bool {
        texts(self.colours@).contains(event.color@)
    }

    pub fn exclude(&self, event: &Event) -> (r: bool)
        ensures
            r == self.excludes(*event),
    {
        contains_text(&self.colours, &event.color)
    }
}

impl RegexFilter {
    pub open spec fn excludes(&self, event: Event) -> bool {
        exists|i: int| 0 <= i < self.patterns@.len() && regex_finds(#[trigger] self.patterns@[i].pattern(), event.name@)
    }

    /// Compiles every pattern; fails on the first one that is not valid.
    pub fn build(patterns: &Vec<String>) -> (r: Result<RegexFilter, FilterError>)
        ensures
            r matches Ok(f) ==> f.patterns@.len() == patterns@.len() && forall|i: int|
                0 <= i < patterns@.len() ==> (#[trigger] f.patterns@[i]).pattern() == patterns@[i]@,
            r is Ok <==> forall|i: int| 0 <= i < patterns@.len() ==> regex_compiles(#[trigger] patterns@[i]@),
            r matches Err(FilterError::InvalidPattern(k)) ==> k < patterns@.len() && !regex_compiles(patterns@[k as int]@)
                && forall|i: int| 0 <= i < k ==> regex_compiles(#[trigger] patterns@[i]@),
    {
        let mut compiled: Vec<NamePattern> = Vec::new();
        let mut i: usize = 0;
        while i < patterns.len()
            invariant
                i <= patterns@.len(),
                compiled@.len() == i,
                forall|j: int| 0 <= j < i ==> (#[trigger] compiled@[j]).pattern() == patterns@[j]@,
                forall|j: int| 0 <= j < i ==> regex_compiles(#[trigger] patterns@[j]@),
            decreases patterns@.len() - i,
        {
            match NamePattern::new(patterns[i].as_str()) {
                Some(p) => compiled.push(p),
                None => return Err(FilterError::InvalidPattern(i)),
            }
            i = i + 1;
        }
        Ok(RegexFilter { patterns: compiled })
    }

    pub fn exclude(&self, event: &Event) -> (r: bool)
        ensures
            r == self.excludes(*event),
    {
        let mut i: usize = 0;
        while i < self.patterns.len()
            invariant
                i <= self.patterns@.len(),
                forall|j: int| 0 <= j < i ==> !regex_finds(#[trigger] self.patterns@[j].pattern(), event.name@),
            decreases self.patterns@.len() - i,
        {
            if self.patterns[i].matches(event.name.as_str()) {
                return true;
            }
            i = i + 1;
        }
        false
    }
}

impl EventFilter {
    pub open spec fn excludes(&self, event: Event) -> bool {
        match self {
            EventFilter::Colour(f) => f.excludes(event),
            EventFilter::Regex(f) => f.excludes(event),
        }
    }

    pub fn exclude(&self, event: &Event) -> (r: bool)
        ensures
            r == self.excludes(*event),
    {
        match self {
            EventFilter::Colour(f) => f.exclude(event),
            EventFilter::Regex(f) => f.exclude(event),
        }
    }
}

/// Some filter of `fs` excludes the event.
pub open spec fn excluded(fs: Seq<EventFilter>, event: Event) -> bool {
    exists|i: int| 0 <= i < fs.len() && (#[trigger] fs[i]).excludes(event)
}

/// Whether any filter excludes the event; stops at the first that does.
pub fn excluded_by_any(filters: &Vec<EventFilter>, event: &Event) -> (r: bool)
    ensures
        r == excluded(filters@, *event),
{
    let mut i: usize = 0;
    while i < filters.len()
        invariant
            i <= filters@.len(),
            forall|j: int| 0 <= j < i ==> !(#[trigger] filters@[j]).excludes(*event),
        decreases filters@.len() - i,
    {
        if filters[i].exclude(event) {
            return true;
        }
        i = i + 1;
    }
    false
}

/// Whether an event is excluded does not depend on the order of the filters:
/// two chains made of the same filters exclude the same events.
pub proof fn lemma_exclusion_order_independent(fs: Seq<EventFilter>, gs: Seq<EventFilter>, event: Event)
    requires
        forall|f: EventFilter| fs.contains(f) <==> gs.contains(f),
    ensures
        excluded(fs, event) == excluded(gs, event),
{
    if excluded(fs, event) {
        let i = choose|i: int| 0 <= i < fs.len() && (#[trigger] fs[i]).excludes(event);
        assert(fs.contains(fs[i]));
        let j = choose|j: int| 0 <= j < gs.len() && gs[j] == fs[i];
        assert(gs[j].excludes(event));
    }
    if excluded(gs, event) {
        let i = choose|i: int| 0 <= i < gs.len() && (#[trigger] gs[i]).excludes(event);
        assert(gs.contains(gs[i]));
        let j = choose|j: int| 0 <= j < fs.len() && fs[j] == gs[i];
        assert(fs[j].excludes(event));
    }
}

/// The colour filter, then the name filter.
pub fn default_filters(ignored_colours: Vec<String>, ignored_regex: &Vec<String>) -> (r: Result<Vec<EventFilter>, FilterError>)
    ensures
        r is Ok <==> forall|i: int| 0 <= i < ignored_regex@.len() ==> regex_compiles(#[trigger] ignored_regex@[i]@),
        r matches Err(FilterError::InvalidPattern(k)) ==> k < ignored_regex@.len() && !regex_compiles(ignored_regex@[k as int]@)
            && forall|i: int| 0 <= i < k ==> regex_compiles(#[trigger] ignored_regex@[i]@),
        r matches Ok(fs) ==> {
            &&& fs@.len() == 2
            &&& fs@[0] matches EventFilter::Colour(f) && f.colours@ == ignored_colours@
            &&& fs@[1] matches EventFilter::Regex(f) && f.patterns@.len() == ignored_regex@.len()
                && forall|i: int| 0 <= i < ignored_regex@.len() ==> (#[trigger] f.patterns@[i]).pattern() == ignored_regex@[i]@
        },
{
    let names = match RegexFilter::build(ignored_regex) {
        Ok(f) => f,
        Err(e) => return Err(e),
    };
    let mut fs: Vec<EventFilter> = Vec::new();
    fs.push(EventFilter::Colour(ColourFilter { colours: ignored_colours }));
    fs.push(EventFilter::Regex(names));
    Ok(fs)
}

} // verus!
