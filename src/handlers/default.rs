use vstd::prelude::*;
use crate::event::Event;
use crate::text::push_str;

verus! {

/// Renders any event as a plain line; it always applies, so it closes the chain.
#[derive(Debug, Clone, Copy)]
pub struct DefaultEventHandler {}

impl DefaultEventHandler {
    /// `- **HHMM**: name`
    pub open spec fn renders(&self, event: Event) -> Option<Seq<char>> {
        Some("- **"@ + event.start_time.hhmm() + "**: "@ + event.name@)
    }

    pub fn build() -> (r: DefaultEventHandler) {
        DefaultEventHandler {}
    }

    pub fn handle(&self, event: &Event) -> (r: Option<String>)
        requires
            event.start_time.wf(),
        ensures
            super::opt_text(r) == self.renders(*event),
    {
        let mut s = String::new();
        push_str(&mut s, "- **");
        event.start_time.push_hhmm(&mut s);
        push_str(&mut s, "**: ");
        push_str(&mut s, event.name.as_str());
        assert(s@ =~= "- **"@ + event.start_time.hhmm() + "**: "@ + event.name@);
        Some(s)
    }
}

} // verus!
