//! Notification requests: what the system is asked to show.

use vstd::prelude::*;

verus! {

/// Title of the hourly reminder.
pub const HOURLY_TITLE: &'static str = "water reminder";

/// Body of the hourly reminder.
pub const HOURLY_BODY: &'static str = "it's the top of the hour — drink water!";

/// The model of a request in contracts: its two texts.
pub struct NotificationText {
    pub title: Seq<char>,
    pub body: Seq<char>,
}

/// A request to show one desktop notification. It is made on demand and
/// handed to the system at once; it has no identity and is not stored.
#[derive(Debug, PartialEq, Eq)]
pub struct NotificationRequest {
    title: String,
    body: String,
}

impl View for NotificationRequest {
    type V = NotificationText;

    closed spec fn view(&self) -> NotificationText {
        NotificationText { title: self.title@, body: self.body@ }
    }
}

impl NotificationRequest {
    /// The title to show.
    pub fn title(&self) -> (title: &str)
        ensures
            title@ == self@.title,
    {
        self.title.as_str()
    }

    /// The body to show.
    pub fn body(&self) -> (body: &str)
        ensures
            body@ == self@.body,
    {
        self.body.as_str()
    }
}

/// What the hourly reminder says.
pub open spec fn hourly_reminder_text() -> NotificationText {
    NotificationText { title: HOURLY_TITLE@, body: HOURLY_BODY@ }
}

/// What a manual reminder with this title and body says: the two texts as
/// they were given, neither trimmed nor changed.
pub open spec fn manual_reminder_text(title: Seq<char>, body: Seq<char>) -> NotificationText {
    NotificationText { title, body }
}

/// The request that the scheduler makes at the top of an hour.
pub fn hourly_reminder() -> (request: NotificationRequest)
    ensures
        request@ == hourly_reminder_text(),
{
    NotificationRequest { title: HOURLY_TITLE.to_owned(), body: HOURLY_BODY.to_owned() }
}

/// Answers a manual trigger: makes the one request that is to be handed to
/// the system, with the title and the body of the caller. No text is
/// refused, and nothing of an earlier call is remembered.
pub fn send_water_reminder(title: &str, body: &str) -> (request: NotificationRequest)
    ensures
        request@ == manual_reminder_text(title@, body@),
{
    NotificationRequest { title: title.to_owned(), body: body.to_owned() }
}

/// A repeated manual trigger is answered like the first one: whatever two
/// calls of [`send_water_reminder`] with one title and one body return, each
/// result is a request that carries that title and that body in full, and
/// the second says what the first said.
pub proof fn lemma_repeated_trigger_gets_full_request(
    title: &str,
    body: &str,
    first: NotificationRequest,
    second: NotificationRequest,
)
    requires
        call_ensures(send_water_reminder, (title, body), first),
        call_ensures(send_water_reminder, (title, body), second),
    ensures
        first@ == manual_reminder_text(title@, body@),
        second@ == manual_reminder_text(title@, body@),
        first@ == second@,
{
}

} // verus!
