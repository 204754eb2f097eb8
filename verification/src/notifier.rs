//! The lifecycle subscriptions of a track, and the message that an event
//! for it ends in.

use vstd::prelude::*;
use crate::queue::{EntryModel, EntryState, QueueEntry, TrackEventKind};
use crate::replies::Reply;

verus! {

/// One subscription: an event kind on one track handle.
#[derive(Clone, Copy, Debug, PartialEq, Eq, Structural)]
pub struct Subscription {
    pub handle: u64,
    pub kind: TrackEventKind,
}

/// The subscriptions that `entry` needs: the end and the failure of its own
/// handle if it plays, none otherwise.
pub open spec fn subscriptions_of(entry: EntryModel) -> Seq<Subscription> {
    if entry.state == EntryState::Playing && entry.handle is Some {
        seq![
            Subscription { handle: entry.handle->0, kind: TrackEventKind::Ended },
            Subscription { handle: entry.handle->0, kind: TrackEventKind::Errored },
        ]
    } else {
        Seq::empty()
    }
}

/// The subscriptions to register for `entry` when playback of it begins.
pub fn subscriptions(entry: &QueueEntry) -> (subs: Vec<Subscription>)
    ensures
        subs@ == subscriptions_of(entry@),
{
    let mut subs: Vec<Subscription> = Vec::new();
    match (entry.state, entry.handle) {
        (EntryState::Playing, Some(handle)) => {
            subs.push(Subscription { handle, kind: TrackEventKind::Ended });
            subs.push(Subscription { handle, kind: TrackEventKind::Errored });
        },
        _ => {},
    }
    proof {
        assert(subs@ =~= subscriptions_of(entry@));
    }
    subs
}

/// The status message for a lifecycle event that advanced the queue: that
/// the track finished, or that it failed, with the transport's diagnostic if
/// one could be had.
pub fn event_reply(kind: TrackEventKind, diagnostic: Option<String>) -> (r: Reply)
    ensures
        kind == TrackEventKind::Ended ==> r is TrackFinished,
        kind == TrackEventKind::Errored ==> r is TrackFailed && (diagnostic is Some
            == r->TrackFailed_0 is Some) && (diagnostic is Some ==> r->TrackFailed_0->0@
            == diagnostic->0@),
{
    match kind {
        TrackEventKind::Ended => Reply::TrackFinished,
        TrackEventKind::Errored => Reply::TrackFailed(diagnostic),
    }
}

} // verus!
