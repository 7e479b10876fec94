use vstd::prelude::*;
use crate::event::Event;
use super::{linked_agenda_entry, linked_entry, opt_text};

verus! {

/// The note that the first pair keyed by `name` maps it to.
pub open spec fn lookup(pairs: Seq<(String, String)>, name: Seq<char>) -> Option<Seq<char>>
    decreases pairs.len(),
{
    if pairs.len() == 0 {
        None
    } else if pairs[0].0@ == name {
        Some(pairs[0].1@)
    } else {
        lookup(pairs.drop_first(), name)
    }
}

/// No event name is the key of two pairs.
pub open spec fn keys_unique(pairs: Seq<(String, String)>) -> bool {
    forall|i: int, j: int| 0 <= i < j < pairs.len() ==> (#[trigger] pairs[i]).0@ != (#[trigger] pairs[j]).0@
}

/// Renders events whose name is mapped to a differently named note as a link
/// to that note.
#[derive(Debug)]
pub struct MappedEventHandler {
    /// Pairs of event name and note name, each event name in one pair only.
    notes: Vec<(String, String)>,
}

impl MappedEventHandler {
    #[verifier::type_invariant]
    spec fn inv(self) -> bool {
        keys_unique(self.notes@)
    }

    /// The table as pairs of event name and note name.
    pub closed spec fn notes(&self) -> Seq<(String, String)> {
        self.notes@
    }

    /// The table; each event name is the key of at most one pair.
    pub fn table(&self) -> (r: &Vec<(String, String)>)
        ensures
            r@ == self.notes(),
            keys_unique(r@),
    {
        proof {
            use_type_invariant(self);
        }
        &self.notes
    }

    pub open spec fn renders(&self, event: Event) -> Option<Seq<char>> {
        match lookup(self.notes(), event.name@) {
            Some(note) => Some(linked_entry(event.start_time, note, note)),
            None => None,
        }
    }

    /// A handler for the given table of event name to note name.
    pub fn build(notes: Vec<(String, String)>) -> (r: MappedEventHandler)
        requires
            keys_unique(notes@),
        ensures
            r.notes() == notes@,
    {
        MappedEventHandler { notes }
    }

    /// The index of the first pair keyed by the event's name.
    fn find(&self, event: &Event) -> (r: Option<usize>)
        ensures
            r is None <==> lookup(self.notes(), event.name@) is None,
            r matches Some(i) ==> i < self.notes@.len() && lookup(self.notes(), event.name@)
                == Some(self.notes@[i as int].1@),
    {
        let mut i: usize = 0;
        assert(self.notes@.subrange(0, self.notes@.len() as int) =~= self.notes@);
        while i < self.notes.len()
            invariant
                i <= self.notes@.len(),
                lookup(self.notes(), event.name@) == lookup(self.notes@.subrange(i as int, self.notes@.len() as int), event.name@),
            decreases self.notes@.len() - i,
        {
            proof {
                let rest = self.notes@.subrange(i as int, self.notes@.len() as int);
                assert(rest.drop_first() =~= self.notes@.subrange(i + 1, self.notes@.len() as int));
            }
            if self.notes[i].0.eq(&event.name) {
                return Some(i);
            }
            i = i + 1;
        }
        None
    }

    /// Whether the event's name is a key of the table.
    pub fn valid_for(&self, event: &Event) -> (r: bool)
        ensures
            r == lookup(self.notes(), event.name@) is Some,
    {
        self.find(event).is_some()
    }

    pub fn handle(&self, event: &Event) -> (r: Option<String>)
        requires
            event.start_time.wf(),
        ensures
            opt_text(r) == self.renders(*event),
    {
        match self.find(event) {
            Some(i) => {
                let note = self.notes[i].1.as_str();
                Some(linked_agenda_entry(&event.start_time, note, note))
            },
            None => None,
        }
    }
}

} // verus!
