use vstd::prelude::*;
use vstd::string::*;
use crate::event::Event;
use crate::text::{find_char, index_of, push_str};
use crate::time::StartTime;
use super::{linked_agenda_entry, linked_entry, opt_text};

verus! {

/// Whether `serde_email` accepts the text as an e-mail address.
pub uninterp spec fn email_valid(s: Seq<char>) -> bool;

/// The text in Title Case, as Inflector writes it.
pub uninterp spec fn title_case_of(s: Seq<char>) -> Seq<char>;

/// Relies on `serde_email::Email::from_str`, which accepts a text exactly when
/// `email_address::EmailAddress::is_valid` does: the answer depends on the
/// text alone.
#[verifier::external_body]
fn is_valid_email(s: &str) -> (r: bool)
    ensures
        r == email_valid(s@),
{
    serde_email::Email::from_str(s).is_ok()
}

/// Relies on `inflector::cases::titlecase::to_title_case`: the result depends
/// on the text alone.
#[verifier::external_body]
fn title_case(s: &str) -> (r: String)
    ensures
        r@ == title_case_of(s@),
{
    inflector::cases::titlecase::to_title_case(s)
}

/// Why no name could be read from an attendee's address.
#[derive(Debug, Clone, Copy, PartialEq, Eq)]
pub enum NameError {
    /// The text is not an e-mail address.
    InvalidEmail,
    /// The address holds no `@`.
    MissingDomain,
    /// The address is outside the user's own domain.
    ExternalDomain,
    /// The local part holds no `.` between first and last name.
    MissingDot,
}

/// The position of the last `c` among the first `k` characters, or -1.
pub open spec fn last_index(s: Seq<char>, c: char, k: int) -> int
    decreases k,
{
    if k <= 0 {
        -1
    } else if s[k - 1] == c {
        k - 1
    } else {
        last_index(s, c, k - 1)
    }
}

/// The user's home domain: the text after the last `@` of the address, or
/// all of it when there is none.
pub open spec fn home_domain(user_email: Seq<char>) -> Seq<char> {
    user_email.subrange(last_index(user_email, '@', user_email.len() as int) + 1, user_email.len() as int)
}

/// First and last name read from `first.last@domain`, where the domain is
/// `home`: the address is split at its first `@`, the local part at its
/// first `.`.
pub open spec fn name_parts(home: Seq<char>, email: Seq<char>) -> Result<(Seq<char>, Seq<char>), NameError> {
    let at = index_of(email, '@', 0);
    if at == email.len() {
        Err(NameError::MissingDomain)
    } else if email.subrange(at + 1, email.len() as int) != home {
        Err(NameError::ExternalDomain)
    } else {
        let local = email.subrange(0, at);
        let dot = index_of(local, '.', 0);
        if dot == local.len() {
            Err(NameError::MissingDot)
        } else {
            Ok((local.subrange(0, dot), local.subrange(dot + 1, local.len() as int)))
        }
    }
}

/// First name and full name, each in Title Case, of the colleague at `email`.
pub open spec fn parsed_name(user_email: Seq<char>, email: Seq<char>) -> Result<(Seq<char>, Seq<char>), NameError> {
    if !email_valid(email) {
        Err(NameError::InvalidEmail)
    } else {
        match name_parts(home_domain(user_email), email) {
            Ok((first, last)) => Ok((title_case_of(first), title_case_of(first + " "@ + last))),
            Err(e) => Err(e),
        }
    }
}

pub open spec fn pair_text(r: Result<(String, String), NameError>) -> Result<(Seq<char>, Seq<char>), NameError> {
    match r {
        Ok((a, b)) => Ok((a@, b@)),
        Err(e) => Err(e),
    }
}

fn last_index_exec(s: &str, c: char) -> (r: usize)
    ensures
        r as int == last_index(s@, c, s@.len() as int) + 1,
        r <= s@.len(),
{
    let mut k = s.unicode_len();
    while k > 0
        invariant
            k <= s@.len(),
            last_index(s@, c, s@.len() as int) == last_index(s@, c, k as int),
        decreases k,
    {
        if s.get_char(k - 1) == c {
            return k;
        }
        k = k - 1;
    }
    0
}

/// The text of `user_email` after its last `@`.
pub fn home_domain_exec(user_email: &str) -> (r: String)
    ensures
        r@ == home_domain(user_email@),
{
    let from = last_index_exec(user_email, '@');
    String::from_str(user_email.substring_char(from, user_email.unicode_len()))
}

/// First and last name read from `first.last@home`.
pub fn split_name(home: &str, email: &str) -> (r: Result<(String, String), NameError>)
    ensures
        pair_text(r) == name_parts(home@, email@),
{
    let n = email.unicode_len();
    let at = find_char(email, '@', 0);
    if at == n {
        return Err(NameError::MissingDomain);
    }
    let domain = String::from_str(email.substring_char(at + 1, n));
    if !domain.eq(&String::from_str(home)) {
        return Err(NameError::ExternalDomain);
    }
    let local = email.substring_char(0, at);
    let dot = find_char(local, '.', 0);
    if dot == at {
        return Err(NameError::MissingDot);
    }
    let first = String::from_str(local.substring_char(0, dot));
    let last = String::from_str(local.substring_char(dot + 1, at));
    Ok((first, last))
}

/// An attendee whose address has a domain other than the user's is never
/// rendered as a one-to-one: the handler does not apply, and no error comes out.
pub proof fn lemma_cross_domain_not_applicable(h: OneToOneEventHandler, event: Event)
    requires
        event.attendees@.len() == 1,
        ({
            let a = event.attendees@[0]@;
            let at = index_of(a, '@', 0);
            at < a.len() && a.subrange(at + 1, a.len() as int) != home_domain(h.user_email@)
        }),
    ensures
        h.renders(event) is None,
{
}

/// Renders one-to-one meetings with a colleague of the same domain as a link
/// to a note on them, shown as `user/First`.
#[derive(Debug, Clone)]
pub struct OneToOneEventHandler {
    pub user_email: String,
    pub user_first_name: String,
}

impl OneToOneEventHandler {
    pub open spec fn renders(&self, event: Event) -> Option<Seq<char>> {
        if event.attendees@.len() != 1 {
            None
        } else {
            match parsed_name(self.user_email@, event.attendees@[0]@) {
                Ok((first, full)) => Some(
                    linked_entry(event.start_time, full, self.user_first_name@ + "/"@ + first),
                ),
                Err(_) => None,
            }
        }
    }

    /// A handler for the user with the given first name and address; the
    /// address must be a valid one.
    pub fn build(user_first_name: &str, user_email: &str) -> (r: Result<OneToOneEventHandler, NameError>)
        ensures
            r is Err <==> !email_valid(user_email@),
            r is Err ==> r == Err::<OneToOneEventHandler, NameError>(NameError::InvalidEmail),
            r matches Ok(h) ==> h.user_first_name@ == user_first_name@ && h.user_email@ == user_email@,
    {
        if !is_valid_email(user_email) {
            return Err(NameError::InvalidEmail);
        }
        Ok(OneToOneEventHandler {
            user_email: String::from_str(user_email),
            user_first_name: String::from_str(user_first_name),
        })
    }

    /// Whether the event has exactly one attendee besides the user.
    pub fn valid_for(&self, event: &Event) -> (r: bool)
        ensures
            r == (event.attendees@.len() == 1),
    {
        event.attendees.len() == 1
    }

    /// First name and full name, in Title Case, of the colleague at `email`.
    pub fn parse_name_from_email(&self, email: &str) -> (r: Result<(String, String), NameError>)
        ensures
            pair_text(r) == parsed_name(self.user_email@, email@),
    {
        let home = home_domain_exec(self.user_email.as_str());
        if !is_valid_email(email) {
            return Err(NameError::InvalidEmail);
        }
        match split_name(home.as_str(), email) {
            Ok((first, last)) => {
                let mut full = first.clone();
                push_str(&mut full, " ");
                push_str(&mut full, last.as_str());
                Ok((title_case(first.as_str()), title_case(full.as_str())))
            },
            Err(e) => Err(e),
        }
    }

    /// The line for a meeting with the colleague of the given (Title Case)
    /// first and full name.
    pub fn render_entry(&self, date: &StartTime, first_name: &str, full_name: &str) -> (r: String)
        requires
            date.wf(),
        ensures
            r@ == linked_entry(*date, full_name@, self.user_first_name@ + "/"@ + first_name@),
    {
        let mut alias = self.user_first_name.clone();
        push_str(&mut alias, "/");
        push_str(&mut alias, first_name);
        linked_agenda_entry(date, full_name, alias.as_str())
    }

    pub fn handle(&self, event: &Event) -> (r: Option<String>)
        requires
            event.start_time.wf(),
        ensures
            opt_text(r) == self.renders(*event),
    {
        if !self.valid_for(event) {
            return None;
        }
        match self.parse_name_from_email(event.attendees[0].as_str()) {
            Ok((first_name, full_name)) => {
                Some(self.render_entry(&event.start_time, first_name.as_str(), full_name.as_str()))
            },
            Err(_) => None,
        }
    }
}

} // verus!
