//! The notification texts the lifecycle produces.
//!
//! Reminder and cancellation texts are built and specified here; the
//! reaction-signup response goes through the template formatter, whose
//! call is named and trusted.

use vstd::prelude::*;
use vstd::string::StringExecFns;

use crate::event::Event;

verus! {

/// The reminder sent to each interested user.
pub open spec fn spec_reminder_text(name: Seq<char>) -> Seq<char> {
    "Hello! **"@ + name + "** is starting soon!"@
}

/// The note sent to each interested user when an event is cancelled.
pub open spec fn spec_cancel_text(name: Seq<char>) -> Seq<char> {
    "**"@ + name + "** has been canceled!"@
}

/// The reply to a reaction on an event that already started.
pub open spec fn spec_started_text(name: Seq<char>) -> Seq<char> {
    "**"@ + name + "** has already started!"@
}

/// Build the reminder text for an event name.
pub fn reminder_text(event_name: &String) -> (r: String)
    ensures
        r@ == spec_reminder_text(event_name@),
{
    let head = "Hello! **".to_owned();
    let mid = head.concat(event_name.as_str());
    mid.concat("** is starting soon!")
}

/// Build the cancellation text for an event name.
pub fn cancel_text(event_name: &String) -> (r: String)
    ensures
        r@ == spec_cancel_text(event_name@),
{
    let head = "**".to_owned();
    let mid = head.concat(event_name.as_str());
    mid.concat("** has been canceled!")
}

/// Build the already-started text for an event name.
pub fn started_text(event_name: &String) -> (r: String)
    ensures
        r@ == spec_started_text(event_name@),
{
    let head = "**".to_owned();
    let mid = head.concat(event_name.as_str());
    mid.concat("** has already started!")
}

/// What the template formatter yields for a template and one
/// key-to-value binding, or nothing when it rejects the template.
pub uninterp spec fn formatted_with(
    template: Seq<char>,
    key: Seq<char>,
    value: Seq<char>,
) -> Option<Seq<char>>;

/// Relies on `strfmt::strfmt` with a single-entry variable map.  The
/// result depends on the template, the key and the value alone.
#[verifier::external_body]
pub fn format_template(template: &str, key: &str, value: &str) -> (r: Option<String>)
    ensures
        match r {
            Some(out) => formatted_with(template@, key@, value@) == Some(out@),
            None => formatted_with(template@, key@, value@) is None,
        },
{
    let mut vars: std::collections::HashMap<String, String> = std::collections::HashMap::new();
    vars.insert(key.to_string(), value.to_string());
    strfmt::strfmt(template, &vars).ok()
}

/// The reply to a user reacting on an announcement: the template
/// (with the event name bound to `event`) while the event still lies
/// ahead, the already-started note otherwise.  Nothing is produced
/// only when the formatter rejects the template.
pub open spec fn spec_reaction_response(template: Seq<char>, e: Event, now: int) -> Option<
    Seq<char>,
> {
    if now < e.event_time {
        formatted_with(template, "event"@, e.event_name@)
    } else {
        Some(spec_started_text(e.event_name@))
    }
}

/// Choose the reply to a reaction on this event's announcement.
pub fn reaction_response(template: &str, event: &Event, now: i64) -> (r: Option<String>)
    ensures
        match r {
            Some(m) => spec_reaction_response(template@, *event, now as int) == Some(m@),
            None => spec_reaction_response(template@, *event, now as int) is None,
        },
{
    if now < event.event_time {
        format_template(template, "event", event.event_name.as_str())
    } else {
        Some(started_text(&event.event_name))
    }
}

} // verus!
