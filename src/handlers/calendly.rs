use vstd::prelude::*;
use vstd::string::*;
use crate::event::Event;
use crate::text::{find_char, index_of, last_at, last_occurrence, lemma_index_of_bounds, lemma_last_at_bounds, push_str};
use super::{linked_agenda_entry, linked_entry, opt_text};

verus! {

/// The guest named by a Calendly event title: the longest non-empty prefix of
/// its first line that is followed by ` and Jon Seager`.
pub open spec fn calendly_guest(name: Seq<char>) -> Option<Seq<char>> {
    match last_at(name, " and Jon Seager"@, 1, name.len() as int, index_of(name, '\n', 0)) {
        Some(k) => Some(name.subrange(0, k)),
        None => None,
    }
}

/// The text before the first space, or all of it when there is none.
pub open spec fn first_word(s: Seq<char>) -> Seq<char> {
    s.subrange(0, index_of(s, ' ', 0))
}

/// Renders events booked through Calendly as a link to a note on the guest,
/// shown as `user/GuestFirstName`.
#[derive(Debug, Clone)]
pub struct CalendlyEventHandler {
    pub user_name: String,
}

impl CalendlyEventHandler {
    pub open spec fn renders(&self, event: Event) -> Option<Seq<char>> {
        match calendly_guest(event.name@) {
            Some(g) => Some(linked_entry(event.start_time, g, self.user_name@ + "/"@ + first_word(g))),
            None => None,
        }
    }

    /// A handler for the user with the given preferred name.
    pub fn build(user_name: &str) -> (r: CalendlyEventHandler)
        ensures
            r.user_name@ == user_name@,
    {
        CalendlyEventHandler { user_name: String::from_str(user_name) }
    }

    /// The guest named by the event's title, where it is a Calendly title.
    pub fn valid_for(&self, event: &Event) -> (r: Option<String>)
        ensures
            opt_text(r) == calendly_guest(event.name@),
    {
        let name = event.name.as_str();
        let nl = find_char(name, '\n', 0);
        match last_occurrence(name, " and Jon Seager", 1, name.unicode_len(), nl) {
            Some(k) => {
                proof {
                    lemma_last_at_bounds(name@, " and Jon Seager"@, 1, name@.len() as int, nl as int);
                }
                Some(String::from_str(name.substring_char(0, k)))
            },
            None => None,
        }
    }

    pub fn handle(&self, event: &Event) -> (r: Option<String>)
        requires
            event.start_time.wf(),
        ensures
            opt_text(r) == self.renders(*event),
    {
        match self.valid_for(event) {
            Some(full_name) => {
                let g = full_name.as_str();
                let sp = find_char(g, ' ', 0);
                proof {
                    lemma_index_of_bounds(g@, ' ', 0);
                }
                let mut alias = String::from_str(self.user_name.as_str());
                push_str(&mut alias, "/");
                push_str(&mut alias, g.substring_char(0, sp));
                Some(linked_agenda_entry(&event.start_time, g, alias.as_str()))
            },
            None => None,
        }
    }
}

} // verus!
