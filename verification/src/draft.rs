//! The single process-local draft slot.
//!
//! One pending, unconfirmed event exists per process, owned by the user
//! who last wrote it.  A later write replaces the slot wholesale, so a
//! second creator silently evicts the first creator's unconfirmed
//! draft.  Confirming does not clear the slot; the next write does.

use vstd::prelude::*;

use crate::errors::HypeError;
use crate::event::{DraftEvent, NewEvent};

verus! {

/// Holder of the single pending draft.
pub struct DraftSlot {
    draft: Option<DraftEvent>,
}

impl View for DraftSlot {
    type V = Option<DraftEvent>;

    closed spec fn view(&self) -> Option<DraftEvent> {
        self.draft
    }
}

impl DraftSlot {
    /// An empty slot: no draft has been written yet.
    pub fn new() -> (s: Self)
        ensures
            s@ is None,
    {
        DraftSlot { draft: None }
    }

    /// Replace the slot unconditionally.  Any prior unconfirmed draft
    /// is lost; that is not an error.
    pub fn set(&mut self, draft: DraftEvent)
        ensures
            final(self)@ == Some(draft),
    {
        self.draft = Some(draft);
    }

    /// The current draft, or nothing if the slot was never written.
    pub fn get(&self) -> (r: Option<DraftEvent>)
        ensures
            r == self@,
    {
        match &self.draft {
            Some(d) => Some(d.clone()),
            None => None,
        }
    }

    /// Hand out the pending template for posting.
    ///
    /// Fails with `NotFound` when no draft exists and with
    /// `Authorization` when the requester is not the draft's creator;
    /// otherwise returns the template, whose announcement-message id is
    /// still whatever the draft holds.  The slot itself is untouched.
    pub fn confirm(&self, requester_id: u64) -> (r: Result<NewEvent, HypeError>)
        ensures
            match r {
                Ok(ev) => self@ matches Some(d) && d.creator_id == requester_id && ev == d.event,
                Err(e) => (e == HypeError::NotFound && self@ is None) || (e
                    == HypeError::Authorization && (self@ matches Some(d) && d.creator_id
                    != requester_id)),
            },
    {
        match &self.draft {
            Some(d) => {
                if d.creator_id == requester_id {
                    Ok(d.event.clone())
                } else {
                    Err(HypeError::Authorization)
                }
            },
            None => Err(HypeError::NotFound),
        }
    }
}

/// Overwrite the draft slot field by field, exactly as a freshly issued
/// create command does: the announcement-message id is cleared and the
/// reminder flag starts pending.
pub fn update_draft_event(
    slot: &mut DraftSlot,
    event_name: String,
    event_desc: String,
    organizer: String,
    location: String,
    thumbnail: String,
    event_time: i64,
    creator_id: u64,
)
    ensures
        final(slot)@ matches Some(d) && d.creator_id == creator_id && d.event.event_name
            == event_name && d.event.event_desc == event_desc && d.event.organizer == organizer
            && d.event.event_loc == location && d.event.thumbnail_link == thumbnail
            && d.event.event_time == event_time && d.event.message_id@ == Seq::<char>::empty()
            && d.event.reminder_sent == 0,
{
    slot.set(
        DraftEvent {
            event: NewEvent {
                event_name,
                event_desc,
                event_loc: location,
                organizer,
                event_time,
                message_id: String::new(),
                thumbnail_link: thumbnail,
                reminder_sent: 0,
            },
            creator_id,
        },
    );
}

} // verus!
