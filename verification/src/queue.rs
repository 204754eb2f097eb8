//! The playback queue of one guild session.
//!
//! The entry at the front is the one being played; every other entry waits.
//! Entries that finish, fail or are skipped leave the queue, so an empty queue
//! is exactly an idle one.

use vstd::prelude::*;
use crate::track::{ResolvedTrack, TrackModel};

verus! {

/// Lifecycle state of a queue entry.
#[derive(Clone, Copy, Debug, PartialEq, Eq, Structural)]
pub enum EntryState {
    Pending,
    Playing,
    Finished,
    Failed,
}

/// The lifecycle events a track handle can report.
#[derive(Clone, Copy, Debug, PartialEq, Eq, Structural)]
pub enum TrackEventKind {
    Ended,
    Errored,
}

/// Errors of the queue operations.
#[derive(Clone, Copy, Debug, PartialEq, Eq, Structural)]
pub enum QueueError {
    /// There is no playing entry.
    QueueEmpty,
}

/// A resolved track in the queue. `handle` is present from the moment the
/// entry starts playing.
#[derive(Debug, PartialEq, Eq)]
pub struct QueueEntry {
    pub track: ResolvedTrack,
    pub handle: Option<u64>,
    pub state: EntryState,
}

/// The mathematical value of a [`QueueEntry`].
pub struct EntryModel {
    pub track: TrackModel,
    pub handle: Option<u64>,
    pub state: EntryState,
}

impl View for QueueEntry {
    type V = EntryModel;

    open spec fn view(&self) -> EntryModel {
        EntryModel { track: self.track@, handle: self.handle, state: self.state }
    }
}

impl QueueEntry {
    /// A copy with the same value.
    pub fn duplicate(&self) -> (r: QueueEntry)
        ensures
            r@ == self@,
    {
        QueueEntry { track: self.track.duplicate(), handle: self.handle, state: self.state }
    }
}

/// A waiting entry for `track`.
pub open spec fn pending_entry(track: TrackModel) -> EntryModel {
    EntryModel { track, handle: None, state: EntryState::Pending }
}

/// The entry for `track` while it plays under `handle`.
pub open spec fn playing_entry(track: TrackModel, handle: u64) -> EntryModel {
    EntryModel { track, handle: Some(handle), state: EntryState::Playing }
}

/// The state an entry is left in by the event that ends its playback.
pub open spec fn closing_state(kind: TrackEventKind) -> EntryState {
    match kind {
        TrackEventKind::Ended => EntryState::Finished,
        TrackEventKind::Errored => EntryState::Failed,
    }
}

/// The mathematical value of a [`PlaybackQueue`]: its entries from the front,
/// and the handle that the next entry to start will get.
pub struct QueueModel {
    pub entries: Seq<EntryModel>,
    pub next_handle: u64,
}

impl QueueModel {
    /// The front entry plays under a handle that was already issued, all
    /// others wait without a handle, and a handle is left for each of those.
    pub open spec fn wf(self) -> bool {
        &&& self.entries.len() > 0 ==> {
            &&& self.entries[0].state == EntryState::Playing
            &&& self.entries[0].handle is Some
            &&& self.entries[0].handle->0 < self.next_handle
        }
        &&& forall|i: int|
            1 <= i < self.entries.len() ==> #[trigger] self.entries[i] == pending_entry(
                self.entries[i].track,
            )
        &&& self.next_handle + self.waiting() <= u64::MAX
    }

    /// Number of entries that wait behind the playing one.
    pub open spec fn waiting(self) -> nat {
        if self.entries.len() == 0 {
            0
        } else {
            (self.entries.len() - 1) as nat
        }
    }

    /// Nothing is playing.
    pub open spec fn idle(self) -> bool {
        self.entries.len() == 0
    }

    /// The playing entry, if any.
    pub open spec fn current(self) -> Option<EntryModel> {
        if self.entries.len() > 0 {
            Some(self.entries[0])
        } else {
            None
        }
    }

    /// Whether `handle` is the handle of the playing entry.
    pub open spec fn is_current(self, handle: u64) -> bool {
        self.entries.len() > 0 && self.entries[0].handle == Some(handle)
    }

    /// Whether one more entry can be taken without running out of handles.
    pub open spec fn has_room(self) -> bool {
        if self.entries.len() == 0 {
            self.next_handle < u64::MAX
        } else {
            self.next_handle + self.entries.len() <= u64::MAX
        }
    }

    /// The tracks of the queue, from the front.
    pub open spec fn tracks(self) -> Seq<TrackModel> {
        Seq::new(self.entries.len(), |i: int| self.entries[i].track)
    }

    /// The empty queue that keeps the handle counter.
    pub open spec fn cleared(self) -> QueueModel {
        QueueModel { entries: Seq::empty(), next_handle: self.next_handle }
    }

    /// The queue after `track` was added: playing at once on an idle queue,
    /// waiting at the tail otherwise.
    pub open spec fn enqueued(self, track: TrackModel) -> QueueModel {
        if self.entries.len() == 0 {
            QueueModel {
                entries: seq![playing_entry(track, self.next_handle)],
                next_handle: (self.next_handle + 1) as u64,
            }
        } else {
            QueueModel { entries: self.entries.push(pending_entry(track)), next_handle: self.next_handle }
        }
    }

    /// The queue after its front entry left: the next waiting entry, if there
    /// is one, starts playing under a fresh handle.
    pub open spec fn advanced(self) -> QueueModel
        recommends
            self.entries.len() > 0,
    {
        let rest = self.entries.drop_first();
        if rest.len() == 0 {
            QueueModel { entries: rest, next_handle: self.next_handle }
        } else {
            QueueModel {
                entries: rest.update(0, playing_entry(rest[0].track, self.next_handle)),
                next_handle: (self.next_handle + 1) as u64,
            }
        }
    }

    /// The queue after a lifecycle event for `handle`: it advances only if
    /// `handle` still belongs to the playing entry.
    pub open spec fn after_event(self, handle: u64) -> QueueModel {
        if self.is_current(handle) {
            self.advanced()
        } else {
            self
        }
    }
}

/// What left the queue and what started in its place.
#[derive(Debug, PartialEq, Eq)]
pub struct Advance {
    /// The entry that was playing, in the state it was closed with.
    pub closed: QueueEntry,
    /// The entry that now plays, if one was waiting.
    pub started: Option<QueueEntry>,
}

/// A read-only snapshot of the queue.
#[derive(Debug, PartialEq, Eq)]
pub struct QueueStatus {
    pub length: usize,
    pub current: Option<QueueEntry>,
}

/// Ordered queue of resolved tracks with at most one playing entry.
#[derive(Debug)]
pub struct PlaybackQueue {
    entries: Vec<QueueEntry>,
    next_handle: u64,
}

impl View for PlaybackQueue {
    type V = QueueModel;

    closed spec fn view(&self) -> QueueModel {
        QueueModel {
            entries: Seq::new(self.entries@.len(), |i: int| self.entries@[i]@),
            next_handle: self.next_handle,
        }
    }
}

impl PlaybackQueue {
    /// The invariant of the queue, see [`QueueModel::wf`].
    pub open spec fn wf(&self) -> bool {
        self@.wf()
    }

    /// An idle queue.
    pub fn new() -> (q: PlaybackQueue)
        ensures
            q.wf(),
            q@.entries.len() == 0,
            q@.next_handle == 0,
    {
        PlaybackQueue { entries: Vec::new(), next_handle: 0 }
    }

    /// Number of entries, the playing one included.
    pub fn len(&self) -> (n: usize)
        ensures
            n == self@.entries.len(),
    {
        self.entries.len()
    }

    /// Whether nothing is playing.
    pub fn is_idle(&self) -> (b: bool)
        ensures
            b == self@.idle(),
    {
        self.entries.len() == 0
    }

    /// Whether [`PlaybackQueue::enqueue`] can take one more entry.
    pub fn has_room(&self) -> (b: bool)
        ensures
            b == self@.has_room(),
    {
        let n: usize = self.entries.len();
        if n == 0 {
            self.next_handle < u64::MAX
        } else {
            n as u64 <= u64::MAX - self.next_handle
        }
    }

    /// Whether `handle` belongs to the entry that is playing now.
    pub fn is_current(&self, handle: u64) -> (b: bool)
        ensures
            b == self@.is_current(handle),
    {
        if self.entries.len() == 0 {
            false
        } else {
            match self.entries[0].handle {
                Some(h) => h == handle,
                None => false,
            }
        }
    }

    /// Starts the front entry under a fresh handle. The front entry must be
    /// waiting; the rest of the queue is untouched.
    fn start_front(&mut self) -> (started: QueueEntry)
        requires
            old(self).entries@.len() > 0,
            old(self).next_handle < u64::MAX,
        ensures
            final(self)@.entries == old(self)@.entries.update(
                0,
                playing_entry(old(self)@.entries[0].track, old(self)@.next_handle),
            ),
            final(self)@.next_handle == old(self)@.next_handle + 1,
            started@ == final(self)@.entries[0],
    {
        let mut front = self.entries.remove(0);
        front.handle = Some(self.next_handle);
        front.state = EntryState::Playing;
        let copy = front.duplicate();
        self.entries.insert(0, front);
        self.next_handle = self.next_handle + 1;
        proof {
            assert(final(self)@.entries =~= old(self)@.entries.update(
                0,
                playing_entry(old(self)@.entries[0].track, old(self)@.next_handle),
            ));
        }
        copy
    }

    /// Appends `track`. On an idle queue the new entry starts playing at once
    /// under a fresh handle; otherwise it waits at the tail and the playing
    /// entry is untouched. Returns the entry as it now stands in the queue.
    pub fn enqueue(&mut self, track: ResolvedTrack) -> (entry: QueueEntry)
        requires
            old(self).wf(),
            old(self)@.has_room(),
        ensures
            final(self).wf(),
            final(self)@ == old(self)@.enqueued(track@),
            entry@ == final(self)@.entries.last(),
    {
        let was_idle = self.entries.len() == 0;
        let added = QueueEntry { track, handle: None, state: EntryState::Pending };
        let waiting = added.duplicate();
        self.entries.push(added);
        proof {
            assert(self@.entries =~= old(self)@.entries.push(pending_entry(track@)));
        }
        if was_idle {
            let started = self.start_front();
            proof {
                assert(final(self)@.entries =~= seq![
                    playing_entry(track@, old(self)@.next_handle),
                ]);
            }
            started
        } else {
            waiting
        }
    }

    /// Removes the front entry, closing it with `state`, and starts the next
    /// waiting entry if there is one.
    fn advance(&mut self, state: EntryState) -> (out: Advance)
        requires
            old(self).wf(),
            old(self)@.entries.len() > 0,
        ensures
            final(self).wf(),
            final(self)@ == old(self)@.advanced(),
            out.closed@ == (EntryModel { state, ..old(self)@.entries[0] }),
            out.started.is_some() == (old(self)@.entries.len() > 1),
            out.started.is_some() ==> out.started.unwrap()@ == final(self)@.entries[0],
    {
        let mut closed = self.entries.remove(0);
        closed.state = state;
        proof {
            assert(self@.entries =~= old(self)@.entries.drop_first());
        }
        if self.entries.len() == 0 {
            Advance { closed, started: None }
        } else {
            let started = self.start_front();
            proof {
                assert(final(self)@.entries =~= old(self)@.advanced().entries);
            }
            Advance { closed, started: Some(started) }
        }
    }

    /// Skips the playing entry: it is closed as finished and leaves the
    /// queue, and the next waiting entry starts. Skipping the last entry
    /// leaves the queue idle. On an idle queue nothing changes and the
    /// error is `QueueEmpty`.
    pub fn skip(&mut self) -> (r: Result<Advance, QueueError>)
        requires
            old(self).wf(),
        ensures
            final(self).wf(),
            old(self)@.idle() ==> r == Err::<Advance, QueueError>(QueueError::QueueEmpty)
                && final(self)@ == old(self)@,
            !old(self)@.idle() ==> {
                &&& r is Ok
                &&& final(self)@ == old(self)@.advanced()
                &&& r->Ok_0.closed@ == (EntryModel {
                    state: EntryState::Finished,
                    ..old(self)@.entries[0]
                })
                &&& r->Ok_0.started.is_some() == (old(self)@.entries.len() > 1)
                &&& r->Ok_0.started.is_some() ==> r->Ok_0.started.unwrap()@ == final(self)@.entries[0]
            },
    {
        if self.entries.len() == 0 {
            Err(QueueError::QueueEmpty)
        } else {
            Ok(self.advance(EntryState::Finished))
        }
    }

    /// Discards every entry, leaving the queue idle. Returns the handle of
    /// the entry that was playing, whose playback is to be halted; `None` on
    /// an idle queue, which is left as it was.
    pub fn stop(&mut self) -> (halted: Option<u64>)
        requires
            old(self).wf(),
        ensures
            final(self).wf(),
            final(self)@ == old(self)@.cleared(),
            old(self)@.idle() ==> final(self)@ == old(self)@,
            halted == (match old(self)@.current() {
                Some(e) => e.handle,
                None => None,
            }),
    {
        let halted = if self.entries.len() == 0 {
            None
        } else {
            self.entries[0].handle
        };
        self.entries.clear();
        proof {
            assert(final(self)@.entries =~= Seq::<EntryModel>::empty());
            if old(self)@.idle() {
                assert(final(self)@.entries =~= old(self)@.entries);
            }
        }
        halted
    }

    /// A snapshot of the length and of the playing entry. The queue is not
    /// changed.
    pub fn status(&self) -> (s: QueueStatus)
        ensures
            s.length == self@.entries.len(),
            s.current.is_some() == !self@.idle(),
            s.current.is_some() ==> Some(s.current.unwrap()@) == self@.current(),
    {
        let current = if self.entries.len() == 0 {
            None
        } else {
            Some(self.entries[0].duplicate())
        };
        QueueStatus { length: self.entries.len(), current }
    }

    /// Reacts to a lifecycle event reported for `handle`. If `handle` still
    /// belongs to the playing entry, that entry is closed (finished after
    /// `Ended`, failed after `Errored`) and the queue advances. An event for
    /// any other handle, such as one that was already handled or whose entry
    /// was discarded, changes nothing and yields `None`.
    pub fn on_track_event(&mut self, handle: u64, kind: TrackEventKind) -> (out: Option<Advance>)
        requires
            old(self).wf(),
        ensures
            final(self).wf(),
            final(self)@ == old(self)@.after_event(handle),
            out.is_some() == old(self)@.is_current(handle),
            out.is_some() ==> {
                &&& out.unwrap().closed@ == (EntryModel {
                    state: closing_state(kind),
                    ..old(self)@.entries[0]
                })
                &&& out.unwrap().started.is_some() == (old(self)@.entries.len() > 1)
                &&& out.unwrap().started.is_some() ==> out.unwrap().started.unwrap()@ == final(self)@.entries[0]
            },
    {
        if self.is_current(handle) {
            let state = match kind {
                TrackEventKind::Ended => EntryState::Finished,
                TrackEventKind::Errored => EntryState::Failed,
            };
            Some(self.advance(state))
        } else {
            None
        }
    }
}

/// Adding a track keeps the queue well formed and the order of arrival: the
/// tracks are those from before with the new one at the tail. On an idle
/// queue the new entry plays at once; otherwise the playing entry is
/// untouched and the new entry waits.
pub proof fn lemma_enqueue_order(q: QueueModel, track: TrackModel)
    requires
        q.wf(),
        q.has_room(),
    ensures
        q.enqueued(track).wf(),
        q.enqueued(track).tracks() == q.tracks().push(track),
        q.idle() ==> q.enqueued(track).current() == Some(playing_entry(track, q.next_handle)),
        !q.idle() ==> q.enqueued(track).current() == q.current() && q.enqueued(
            track,
        ).entries.last() == pending_entry(track),
{
    assert(q.enqueued(track).tracks() =~= q.tracks().push(track));
}

/// Advancing discards exactly the front entry: the tracks that remain are
/// those behind it, in their order. The first of them, if there is one, now
/// plays under a handle that no entry had before; if none is left the queue
/// is idle.
pub proof fn lemma_advance_order(q: QueueModel)
    requires
        q.wf(),
        !q.idle(),
    ensures
        q.advanced().wf(),
        q.advanced().tracks() == q.tracks().drop_first(),
        q.entries.len() == 1 ==> q.advanced().idle(),
        q.entries.len() > 1 ==> q.advanced().current() == Some(
            playing_entry(q.entries[1].track, q.next_handle),
        ),
{
    assert(q.advanced().tracks() =~= q.tracks().drop_first());
}

/// A handle that was issued and does not belong to the playing entry never
/// belongs to it again, whatever the queue does next.
pub proof fn lemma_stale_handle_stays_stale(q: QueueModel, handle: u64, track: TrackModel)
    requires
        q.wf(),
        handle < q.next_handle,
        !q.is_current(handle),
    ensures
        !q.cleared().is_current(handle),
        q.has_room() ==> !q.enqueued(track).is_current(handle),
        !q.idle() ==> !q.advanced().is_current(handle),
        q.after_event(handle) == q,
{
}

/// A lifecycle event for the playing entry advances the queue once: a second
/// event for the same handle, of either kind, finds it stale and changes
/// nothing.
pub proof fn lemma_event_advances_once(q: QueueModel, handle: u64)
    requires
        q.wf(),
        q.is_current(handle),
    ensures
        q.after_event(handle) == q.advanced(),
        !q.after_event(handle).is_current(handle),
        q.after_event(handle).after_event(handle) == q.after_event(handle),
{
}

} // verus!
