//! Turns a day's calendar events into a markdown agenda: events are first
//! passed through a chain of exclusion filters, then rendered by the first
//! handler of a fixed priority chain that claims them.

pub mod agenda;
pub mod event;
pub mod filters;
pub mod handlers;
pub mod text;
pub mod time;
