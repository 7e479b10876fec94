use vstd::prelude::*;
use crate::event::Event;
use crate::text::{contains_text, texts};
use super::{linked_agenda_entry, linked_entry, opt_text};

verus! {

/// Renders events whose name is that of a note on the filesystem as a link to it.
#[derive(Debug, Clone)]
pub struct RegularEventHandler {
    pub notes: Vec<String>,
}

impl RegularEventHandler {
    pub open spec fn renders(&self, event: Event) -> Option<Seq<char>> {
        if texts(self.notes@).contains(event.name@) {
            Some(linked_entry(event.start_time, event.name@, event.name@))
        } else {
            None
        }
    }

    /// A handler for the given note names (file names without extension).
    pub fn build(notes: Vec<String>) -> (r: RegularEventHandler)
        ensures
            r.notes@ == notes@,
    {
        RegularEventHandler { notes }
    }

    /// Whether the event's name is one of the notes.
    pub fn valid_for(&self, event: &Event) -> (r: bool)
        ensures
            r == texts(self.notes@).contains(event.name@),
    {
        contains_text(&self.notes, &event.name)
    }

    pub fn handle(&self, event: &Event) -> (r: Option<String>)
        requires
            event.start_time.wf(),
        ensures
            opt_text(r) == self.renders(*event),
    {
        if !self.valid_for(event) {
            return None;
        }
        Some(linked_agenda_entry(&event.start_time, event.name.as_str(), event.name.as_str()))
    }
}

} // verus!
