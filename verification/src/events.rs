use vstd::prelude::*;
use crate::identity::Pubkey;

verus! {

/// Metadata describing a time-bounded community event. Create-only: no
/// lifecycle beyond creation, and the core neither reads it back nor depends
/// on it.
#[derive(Debug)]
pub struct EventDetails {
    pub title: String,
    pub description: String,
    /// Start of the event, in seconds since the epoch.
    pub start_time: i64,
    /// End of the event, in seconds since the epoch.
    pub end_time: i64,
    /// Identity of the organizer who registered the event.
    pub organizer: Pubkey,
}

/// Build the event record to be persisted for `event_details` as submitted
/// by `authority`: the submitted fields are kept as they are, and the
/// organizer is the authority that signed the request, never a field of the
/// submission.
pub fn create_event(event_details: EventDetails, authority: Pubkey) -> (event: EventDetails)
    ensures
        event.title@ == event_details.title@,
        event.description@ == event_details.description@,
        event.start_time == event_details.start_time,
        event.end_time == event_details.end_time,
        event.organizer == authority,
{
    EventDetails {
        title: event_details.title,
        description: event_details.description,
        start_time: event_details.start_time,
        end_time: event_details.end_time,
        organizer: authority,
    }
}

} // verus!
