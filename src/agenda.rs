//! The whole pass: filter each event, render the survivors, keep the order.

use vstd::prelude::*;
use crate::event::Event;
use crate::filters::{excluded, excluded_by_any, EventFilter};
use crate::handlers::{first_render, render_event, EventHandler};
use crate::text::texts;

verus! {

/// The agenda lines for `events`, in their order: one for each event that no
/// filter excludes and some handler renders.
pub open spec fn agenda_lines(fs: Seq<EventFilter>, hs: Seq<EventHandler>, events: Seq<Event>) -> Seq<Seq<char>>
    decreases events.len(),
{
    if events.len() == 0 {
        Seq::empty()
    } else {
        let e = events.last();
        let before = agenda_lines(fs, hs, events.drop_last());
        if excluded(fs, e) {
            before
        } else {
            match first_render(hs, e) {
                Some(line) => before.push(line),
                None => before,
            }
        }
    }
}

/// Renders the agenda for a day's events.
pub fn agenda(filters: &Vec<EventFilter>, handlers: &Vec<EventHandler>, events: &Vec<Event>) -> (r: Vec<String>)
    requires
        forall|i: int| 0 <= i < events@.len() ==> (#[trigger] events@[i]).start_time.wf(),
    ensures
        texts(r@) == agenda_lines(filters@, handlers@, events@),
{
    let mut lines: Vec<String> = Vec::new();
    let mut i: usize = 0;
    while i < events.len()
        invariant
            i <= events@.len(),
            forall|j: int| 0 <= j < events@.len() ==> (#[trigger] events@[j]).start_time.wf(),
            texts(lines@) == agenda_lines(filters@, handlers@, events@.subrange(0, i as int)),
        decreases events@.len() - i,
    {
        let e = &events[i];
        proof {
            assert(events@.subrange(0, i + 1).drop_last() =~= events@.subrange(0, i as int));
            assert(events@.subrange(0, i + 1).last() == events@[i as int]);
        }
        if !excluded_by_any(filters, e) {
            match render_event(e, handlers) {
                Some(line) => {
                    let ghost before = lines@;
                    lines.push(line);
                    assert(texts(lines@) =~= texts(before).push(line@));
                },
                None => {},
            }
        }
        i = i + 1;
    }
    assert(events@.subrange(0, events@.len() as int) =~= events@);
    lines
}

} // verus!
