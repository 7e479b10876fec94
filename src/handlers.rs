//! Renderers that turn a retained event into one agenda line, tried in a
//! fixed priority order: the first that applies wins.

pub mod calendly;
pub mod default;
pub mod interview;
pub mod mapped;
pub mod one_to_one;
pub mod regular;

pub use calendly::CalendlyEventHandler;
pub use default::DefaultEventHandler;
pub use interview::InterviewEventHandler;
pub use mapped::MappedEventHandler;
pub use one_to_one::{split_name, NameError, OneToOneEventHandler};
pub use regular::RegularEventHandler;

use vstd::prelude::*;
use crate::event::Event;
use crate::text::push_str;
use crate::time::StartTime;

verus! {

/// The text held by an optional string.
pub open spec fn opt_text(r: Option<String>) -> Option<Seq<char>> {
    match r {
        Some(s) => Some(s@),
        None => None,
    }
}

/// `- **HHMM**: [[target#YYYY-MM-DD|alias]]`
pub open spec fn linked_entry(t: StartTime, target: Seq<char>, alias: Seq<char>) -> Seq<char> {
    "- **"@ + t.hhmm() + "**: [["@ + target + "#"@ + t.iso_date() + "|"@ + alias + "]]"@
}

/// Renders a linked agenda line for a note `name`, shown as `alias`.
pub fn linked_agenda_entry(date: &StartTime, name: &str, alias: &str) -> (r: String)
    requires
        date.wf(),
    ensures
        r@ == linked_entry(*date, name@, alias@),
{
    let mut s = String::new();
    push_str(&mut s, "- **");
    date.push_hhmm(&mut s);
    push_str(&mut s, "**: [[");
    push_str(&mut s, name);
    push_str(&mut s, "#");
    date.push_iso_date(&mut s);
    push_str(&mut s, "|");
    push_str(&mut s, alias);
    push_str(&mut s, "]]");
    assert(s@ =~= linked_entry(*date, name@, alias@));
    s
}

/// One renderer of the chain.
#[derive(Debug)]
pub enum EventHandler {
    Regular(RegularEventHandler),
    Mapped(MappedEventHandler),
    Interview(InterviewEventHandler),
    OneToOne(OneToOneEventHandler),
    Calendly(CalendlyEventHandler),
    Default(DefaultEventHandler),
}

impl EventHandler {
    /// The line this handler renders for the event, or `None` where it does
    /// not apply.
    pub open spec fn renders(&self, event: Event) -> Option<Seq<char>> {
        match self {
            EventHandler::Regular(h) => h.renders(event),
            EventHandler::Mapped(h) => h.renders(event),
            EventHandler::Interview(h) => h.renders(event),
            EventHandler::OneToOne(h) => h.renders(event),
            EventHandler::Calendly(h) => h.renders(event),
            EventHandler::Default(h) => h.renders(event),
        }
    }

    pub fn handle(&self, event: &Event) -> (r: Option<String>)
        requires
            event.start_time.wf(),
        ensures
            opt_text(r) == self.renders(*event),
    {
        match self {
            EventHandler::Regular(h) => h.handle(event),
            EventHandler::Mapped(h) => h.handle(event),
            EventHandler::Interview(h) => h.handle(event),
            EventHandler::OneToOne(h) => h.handle(event),
            EventHandler::Calendly(h) => h.handle(event),
            EventHandler::Default(h) => h.handle(event),
        }
    }
}

/// The line rendered by the first handler of `hs` that applies.
pub open spec fn first_render(hs: Seq<EventHandler>, event: Event) -> Option<Seq<char>>
    decreases hs.len(),
{
    if hs.len() == 0 {
        None
    } else {
        match hs[0].renders(event) {
            Some(line) => Some(line),
            None => first_render(hs.drop_first(), event),
        }
    }
}

/// The chain's output is exactly that of the first handler in priority order
/// that applies; no later handler is consulted.
pub proof fn lemma_first_applicable_wins(hs: Seq<EventHandler>, event: Event, i: int)
    requires
        0 <= i < hs.len(),
        hs[i].renders(event) is Some,
        forall|j: int| 0 <= j < i ==> (#[trigger] hs[j]).renders(event) is None,
    ensures
        first_render(hs, event) == hs[i].renders(event),
    decreases i,
{
    if i > 0 {
        assert(hs[0].renders(event) is None);
        let rest = hs.drop_first();
        assert forall|j: int| 0 <= j < i - 1 implies (#[trigger] rest[j]).renders(event) is None by {
            assert(rest[j] == hs[j + 1]);
        }
        lemma_first_applicable_wins(rest, event, i - 1);
    }
}

/// The chain renders nothing exactly when no handler applies; in particular a
/// chain that ends with the default handler renders every event.
pub proof fn lemma_chain_renders_iff_some_applies(hs: Seq<EventHandler>, event: Event)
    ensures
        first_render(hs, event) is Some <==> exists|i: int| 0 <= i < hs.len() && (#[trigger] hs[i]).renders(event) is Some,
        hs.len() > 0 && hs.last() is Default ==> first_render(hs, event) is Some,
    decreases hs.len(),
{
    if hs.len() > 0 {
        let rest = hs.drop_first();
        lemma_chain_renders_iff_some_applies(rest, event);
        if hs[0].renders(event) is None {
            if exists|i: int| 0 <= i < hs.len() && (#[trigger] hs[i]).renders(event) is Some {
                let i = choose|i: int| 0 <= i < hs.len() && (#[trigger] hs[i]).renders(event) is Some;
                assert(rest[i - 1] == hs[i]);
            }
            if first_render(rest, event) is Some {
                let i = choose|i: int| 0 <= i < rest.len() && (#[trigger] rest[i]).renders(event) is Some;
                assert(hs[i + 1] == rest[i]);
            }
        } else {
            assert(hs[0].renders(event) is Some);
        }
        if hs.last() is Default {
            assert(hs[hs.len() - 1].renders(event) is Some);
        }
    }
}

/// A handler that does not apply to an event leaves the chain's output for it
/// as if the handler were absent: control passes on to the next one.
pub proof fn lemma_inapplicable_handler_falls_through(hs: Seq<EventHandler>, event: Event, k: int)
    requires
        0 <= k < hs.len(),
        hs[k].renders(event) is None,
    ensures
        first_render(hs, event) == first_render(hs.remove(k), event),
    decreases k,
{
    if k == 0 {
        assert(hs.remove(0) =~= hs.drop_first());
    } else {
        let rest = hs.drop_first();
        assert(rest[k - 1] == hs[k]);
        lemma_inapplicable_handler_falls_through(rest, event, k - 1);
        assert(hs.remove(k).drop_first() =~= rest.remove(k - 1));
        assert(hs.remove(k)[0] == hs[0]);
    }
}

/// An event that no handler before a closing default handler claims is
/// rendered as the plain line `- **HHMM**: name`, with no link.
pub proof fn lemma_unclaimed_event_renders_plain(hs: Seq<EventHandler>, event: Event)
    requires
        hs.len() > 0,
        hs.last() is Default,
        forall|j: int| 0 <= j < hs.len() - 1 ==> (#[trigger] hs[j]).renders(event) is None,
    ensures
        first_render(hs, event) == Some("- **"@ + event.start_time.hhmm() + "**: "@ + event.name@),
{
    lemma_first_applicable_wins(hs, event, hs.len() - 1);
}

/// Renders the event with the first handler that applies.
pub fn render_event(event: &Event, handlers: &Vec<EventHandler>) -> (r: Option<String>)
    requires
        event.start_time.wf(),
    ensures
        opt_text(r) == first_render(handlers@, *event),
{
    let mut i: usize = 0;
    assert(handlers@.subrange(0, handlers@.len() as int) =~= handlers@);
    while i < handlers.len()
        invariant
            i <= handlers@.len(),
            event.start_time.wf(),
            first_render(handlers@, *event) == first_render(handlers@.subrange(i as int, handlers@.len() as int), *event),
        decreases handlers@.len() - i,
    {
        proof {
            let rest = handlers@.subrange(i as int, handlers@.len() as int);
            assert(rest.drop_first() =~= handlers@.subrange(i + 1, handlers@.len() as int));
        }
        let result = handlers[i].handle(event);
        if result.is_some() {
            return result;
        }
        i = i + 1;
    }
    None
}

/// All handlers, in priority order: regular notes, mapped notes, interviews,
/// one-to-ones, Calendly bookings, and the default.
pub fn default_handlers(
    notes: Vec<String>,
    mapped_filenames: Vec<(String, String)>,
    user_preferred_name: &str,
    user_email: &str,
) -> (r: Result<Vec<EventHandler>, NameError>)
    requires
        mapped::keys_unique(mapped_filenames@),
    ensures
        r is Err <==> !one_to_one::email_valid(user_email@),
        r is Err ==> r == Err::<Vec<EventHandler>, NameError>(NameError::InvalidEmail),
        r matches Ok(hs) ==> {
            &&& hs@.len() == 6
            &&& hs@[0] matches EventHandler::Regular(h) && h.notes@ == notes@
            &&& hs@[1] matches EventHandler::Mapped(h) && h.notes() == mapped_filenames@
            &&& hs@[2] is Interview
            &&& hs@[3] matches EventHandler::OneToOne(h) && h.user_first_name@ == user_preferred_name@
                && h.user_email@ == user_email@
            &&& hs@[4] matches EventHandler::Calendly(h) && h.user_name@ == user_preferred_name@
            &&& hs@[5] is Default
        },
{
    let one_to_one = match OneToOneEventHandler::build(user_preferred_name, user_email) {
        Ok(h) => h,
        Err(e) => return Err(e),
    };
    let mut hs: Vec<EventHandler> = Vec::new();
    hs.push(EventHandler::Regular(RegularEventHandler::build(notes)));
    hs.push(EventHandler::Mapped(MappedEventHandler::build(mapped_filenames)));
    hs.push(EventHandler::Interview(InterviewEventHandler::build()));
    hs.push(EventHandler::OneToOne(one_to_one));
    hs.push(EventHandler::Calendly(CalendlyEventHandler::build(user_preferred_name)));
    hs.push(EventHandler::Default(DefaultEventHandler::build()));
    Ok(hs)
}

} // verus!
