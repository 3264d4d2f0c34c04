//! The event rows and the in-memory draft.
//!
//! Instants are plain `i64` seconds since the Unix epoch (UTC); the
//! time-zone arithmetic that produces them lives in `times`.

use vstd::prelude::*;

verus! {

/// A persisted event row, as the store returns it.
#[derive(Debug)]
pub struct Event {
    /// Row id, assigned by the store on insert.
    pub id: i32,
    /// Event name.
    pub event_name: String,
    /// Event long description.
    pub event_desc: String,
    /// Where the event takes place.
    pub event_loc: String,
    /// Who runs the event.
    pub organizer: String,
    /// When the event starts (seconds since the Unix epoch, UTC).
    pub event_time: i64,
    /// Id of the public announcement message; empty until posted.
    pub message_id: String,
    /// Thumbnail link shown with the announcement.
    pub thumbnail_link: String,
    /// Durable transition guard: 0 = reminder pending, 1 = reminder sent.
    pub reminder_sent: i32,
}

/// An event template that has not been persisted yet: no id.
#[derive(Debug)]
pub struct NewEvent {
    /// Event name.
    pub event_name: String,
    /// Event long description.
    pub event_desc: String,
    /// Where the event takes place.
    pub event_loc: String,
    /// Who runs the event.
    pub organizer: String,
    /// When the event starts (seconds since the Unix epoch, UTC).
    pub event_time: i64,
    /// Id of the public announcement message; empty until posted.
    pub message_id: String,
    /// Thumbnail link shown with the announcement.
    pub thumbnail_link: String,
    /// Durable transition guard: 0 = reminder pending, 1 = reminder sent.
    pub reminder_sent: i32,
}

/// The single process-local pending event, owned by whoever last wrote it.
#[derive(Debug)]
pub struct DraftEvent {
    /// The not-yet-persisted template.
    pub event: NewEvent,
    /// The user who last wrote the draft.
    pub creator_id: u64,
}

impl Clone for Event {
    fn clone(&self) -> (res: Self)
        ensures
            res == *self,
    {
        Event {
            id: self.id,
            event_name: self.event_name.clone(),
            event_desc: self.event_desc.clone(),
            event_loc: self.event_loc.clone(),
            organizer: self.organizer.clone(),
            event_time: self.event_time,
            message_id: self.message_id.clone(),
            thumbnail_link: self.thumbnail_link.clone(),
            reminder_sent: self.reminder_sent,
        }
    }
}

impl Clone for NewEvent {
    fn clone(&self) -> (res: Self)
        ensures
            res == *self,
    {
        NewEvent {
            event_name: self.event_name.clone(),
            event_desc: self.event_desc.clone(),
            event_loc: self.event_loc.clone(),
            organizer: self.organizer.clone(),
            event_time: self.event_time,
            message_id: self.message_id.clone(),
            thumbnail_link: self.thumbnail_link.clone(),
            reminder_sent: self.reminder_sent,
        }
    }
}

impl Clone for DraftEvent {
    fn clone(&self) -> (res: Self)
        ensures
            res == *self,
    {
        DraftEvent { event: self.event.clone(), creator_id: self.creator_id }
    }
}

impl Event {
    /// Turn a stored row back into an insertable template.
    pub fn to_new_event(&self) -> (r: NewEvent)
        ensures
            r.event_name == self.event_name,
            r.event_desc == self.event_desc,
            r.event_loc == self.event_loc,
            r.organizer == self.organizer,
            r.event_time == self.event_time,
            r.message_id == self.message_id,
            r.thumbnail_link == self.thumbnail_link,
            r.reminder_sent == self.reminder_sent,
    {
        NewEvent {
            event_name: self.event_name.clone(),
            event_desc: self.event_desc.clone(),
            event_loc: self.event_loc.clone(),
            organizer: self.organizer.clone(),
            event_time: self.event_time,
            message_id: self.message_id.clone(),
            thumbnail_link: self.thumbnail_link.clone(),
            reminder_sent: self.reminder_sent,
        }
    }
}

} // verus!
