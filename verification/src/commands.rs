//! The verified cores of the user commands.
//!
//! The surrounding command glue (argument splitting, permission
//! lookup, replying to the user) stays outside the library; these
//! functions take the already-extracted plain values and decide
//! everything else.

use vstd::prelude::*;

use crate::draft::DraftSlot;
use crate::errors::HypeError;
use crate::event::{DraftEvent, NewEvent};
use crate::lifecycle::{dm_all, dm_effects_for, Effect};
use crate::links::{choose_thumbnail, spec_thumbnail_choice};
use crate::messages::{cancel_text, spec_cancel_text};
use crate::msgid::{parse_msg_id, spec_parse_msg_id};
use crate::settings::HypeBotConfig;
use crate::store::{spec_find_by_name, EventStore};
use crate::times::{local_fields_to_utc, parse_event_time_fields, parsed_event_time,
    utc_timestamp_of};
use crate::valid_instant;

verus! {

/// The create command's decision: parse the wall-clock text, resolve
/// it in the configured zone, reject a time already passed, and fill a
/// draft whose announcement id is empty and whose reminder is pending.
pub fn build_draft(
    config: &HypeBotConfig,
    event_name: String,
    date_string: &String,
    description: String,
    location: String,
    thumbnail_arg: Option<&String>,
    organizer: String,
    now: i64,
    creator_id: u64,
) -> (r: Result<DraftEvent, HypeError>)
    ensures
        match r {
            Ok(d) => {
                &&& parsed_event_time(date_string@) matches Some(f) && utc_timestamp_of(
                    config.event_timezone@,
                    f.0 as int,
                    f.1 as int,
                    f.2 as int,
                    f.3 as int,
                    f.4 as int,
                    f.5 as int,
                ) == Some(d.event.event_time as int)
                &&& now <= d.event.event_time
                &&& valid_instant(d.event.event_time)
                &&& d.creator_id == creator_id
                &&& d.event.event_name == event_name
                &&& d.event.event_desc == description
                &&& d.event.event_loc == location
                &&& d.event.organizer == organizer
                &&& d.event.thumbnail_link@ == spec_thumbnail_choice(
                    match thumbnail_arg {
                        Some(s) => Some(s@),
                        None => None,
                    },
                    config.default_thumbnail_link@,
                )
                &&& d.event.message_id@ == Seq::<char>::empty()
                &&& d.event.reminder_sent == 0
            },
            Err(e) => e == HypeError::Validation && {
                ||| parsed_event_time(date_string@) is None
                ||| (parsed_event_time(date_string@) matches Some(f) && utc_timestamp_of(
                    config.event_timezone@,
                    f.0 as int,
                    f.1 as int,
                    f.2 as int,
                    f.3 as int,
                    f.4 as int,
                    f.5 as int,
                ) is None)
                ||| (parsed_event_time(date_string@) matches Some(f) && (utc_timestamp_of(
                    config.event_timezone@,
                    f.0 as int,
                    f.1 as int,
                    f.2 as int,
                    f.3 as int,
                    f.4 as int,
                    f.5 as int,
                ) matches Some(t) && now > t))
            },
        },
{
    match parse_event_time_fields(date_string.as_str()) {
        None => Err(HypeError::Validation),
        Some((year, month, day, hour, minute, second)) => {
            match local_fields_to_utc(
                config.event_timezone.as_str(),
                year,
                month,
                day,
                hour,
                minute,
                second,
            ) {
                None => Err(HypeError::Validation),
                Some(event_time) => {
                    if now > event_time {
                        Err(HypeError::Validation)
                    } else {
                        let thumbnail = choose_thumbnail(
                            thumbnail_arg,
                            &config.default_thumbnail_link,
                        );
                        Ok(
                            DraftEvent {
                                event: NewEvent {
                                    event_name,
                                    event_desc: description,
                                    event_loc: location,
                                    organizer,
                                    event_time,
                                    message_id: String::new(),
                                    thumbnail_link: thumbnail,
                                    reminder_sent: 0,
                                },
                                creator_id,
                            },
                        )
                    }
                },
            }
        },
    }
}

/// The whole create command against the slot: on success the draft
/// replaces whatever the slot held, carrying exactly the given
/// fields and the resolved UTC instant; it is rejected — with the
/// slot untouched — exactly when the date text does not parse, the
/// zone conversion yields nothing, or the resolved instant has
/// already passed.
pub fn create_draft(
    slot: &mut DraftSlot,
    config: &HypeBotConfig,
    event_name: String,
    date_string: &String,
    description: String,
    location: String,
    thumbnail_arg: Option<&String>,
    organizer: String,
    now: i64,
    creator_id: u64,
) -> (r: Result<(), HypeError>)
    ensures
        match r {
            Ok(()) => final(slot)@ matches Some(d) && {
                &&& parsed_event_time(date_string@) matches Some(f) && utc_timestamp_of(
                    config.event_timezone@,
                    f.0 as int,
                    f.1 as int,
                    f.2 as int,
                    f.3 as int,
                    f.4 as int,
                    f.5 as int,
                ) == Some(d.event.event_time as int)
                &&& now <= d.event.event_time
                &&& valid_instant(d.event.event_time)
                &&& d.creator_id == creator_id
                &&& d.event.event_name == event_name
                &&& d.event.event_desc == description
                &&& d.event.event_loc == location
                &&& d.event.organizer == organizer
                &&& d.event.thumbnail_link@ == spec_thumbnail_choice(
                    match thumbnail_arg {
                        Some(s) => Some(s@),
                        None => None,
                    },
                    config.default_thumbnail_link@,
                )
                &&& d.event.message_id@ == Seq::<char>::empty()
                &&& d.event.reminder_sent == 0
            },
            Err(e) => e == HypeError::Validation && *final(slot) == *old(slot) && {
                ||| parsed_event_time(date_string@) is None
                ||| (parsed_event_time(date_string@) matches Some(f) && utc_timestamp_of(
                    config.event_timezone@,
                    f.0 as int,
                    f.1 as int,
                    f.2 as int,
                    f.3 as int,
                    f.4 as int,
                    f.5 as int,
                ) is None)
                ||| (parsed_event_time(date_string@) matches Some(f) && (utc_timestamp_of(
                    config.event_timezone@,
                    f.0 as int,
                    f.1 as int,
                    f.2 as int,
                    f.3 as int,
                    f.4 as int,
                    f.5 as int,
                ) matches Some(t) && now > t))
            },
        },
{
    match build_draft(
        config,
        event_name,
        date_string,
        description,
        location,
        thumbnail_arg,
        organizer,
        now,
        creator_id,
    ) {
        Ok(d) => {
            slot.set(d);
            Ok(())
        },
        Err(e) => Err(e),
    }
}

/// Look up the event a cancel command names and the announcement it
/// posted.  `NotFound` when no row carries the name; `Validation` when
/// the row's announcement id is not a decimal number.
///
/// The full cancellation then runs: deliver `cancel_notices` to every
/// currently-interested reactor first, and only then retire the event
/// (`apply_retire`), so everyone is notified before anything is
/// deleted.
pub fn prepare_cancel(store: &EventStore, event_name: &String) -> (r: Result<(i32, u64), HypeError>)
    ensures
        match r {
            Ok((id, mid)) => spec_find_by_name(store@, event_name@) matches Some(e) && e.id == id
                && spec_parse_msg_id(e.message_id@) == Some(mid),
            Err(e) => (e == HypeError::NotFound && spec_find_by_name(store@, event_name@) is None)
                || (e == HypeError::Validation && (spec_find_by_name(store@, event_name@) matches
            Some(ev) && spec_parse_msg_id(ev.message_id@) is None)),
        },
{
    match store.get_event_by_name(event_name) {
        None => Err(HypeError::NotFound),
        Some(e) => match parse_msg_id(e.message_id.as_str()) {
            None => Err(HypeError::Validation),
            Some(mid) => Ok((e.id, mid)),
        },
    }
}

/// The notification half of a cancellation: one note per
/// currently-interested reactor, in order.  The store is untouched:
/// the caller delivers these notes first and only then calls
/// `apply_retire`, which removes the row and yields the announcement
/// deletion — so every reactor is notified before anything is
/// deleted, as the cancellation edge requires.
pub fn cancel_notices(event_name: &String, interested: &Vec<u64>) -> (effects: Vec<Effect>)
    ensures
        dm_effects_for(effects@, interested@, spec_cancel_text(event_name@)),
{
    let text = cancel_text(event_name);
    dm_all(interested, &text)
}

} // verus!
