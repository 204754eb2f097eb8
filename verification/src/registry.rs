//! The registry of guild sessions: at most one session per guild.

use vstd::prelude::*;
use crate::queue::{
    closing_state, Advance, EntryModel, EntryState, PlaybackQueue, QueueEntry, QueueModel,
    QueueStatus, TrackEventKind,
};
use crate::track::ResolvedTrack;

verus! {

/// Errors of the session-level operations.
#[derive(Clone, Copy, Debug, PartialEq, Eq, Structural)]
pub enum SessionError {
    /// The guild has no session.
    NotConnected,
    /// The guild's queue has no playing entry.
    QueueEmpty,
}

/// The live voice session of one guild: the channel that status messages go
/// to, and the playback queue.
#[derive(Debug)]
pub struct GuildSession {
    pub guild: u64,
    pub channel: u64,
    pub queue: PlaybackQueue,
}

/// The mathematical value of a [`GuildSession`].
pub struct SessionModel {
    pub guild: u64,
    pub channel: u64,
    pub queue: QueueModel,
}

impl View for GuildSession {
    type V = SessionModel;

    open spec fn view(&self) -> SessionModel {
        SessionModel { guild: self.guild, channel: self.channel, queue: self.queue@ }
    }
}

/// What a lifecycle event did to a session: where the status message goes,
/// and how the queue advanced.
#[derive(Debug, PartialEq, Eq)]
pub struct Notice {
    pub channel: u64,
    pub kind: TrackEventKind,
    pub advance: Advance,
}

/// What `join` found or did.
#[derive(Clone, Copy, Debug, PartialEq, Eq, Structural)]
pub enum JoinOutcome {
    /// A session was created; a transport connection is to be established.
    Created,
    /// The guild already had a session, which is kept as it is.
    AlreadyConnected,
}

/// Whether some session of `s` belongs to `guild`.
pub open spec fn has_session(s: Seq<SessionModel>, guild: u64) -> bool {
    exists|i: int| 0 <= i < s.len() && (#[trigger] s[i]).guild == guild
}

/// No two sessions of `s` belong to the same guild.
pub open spec fn one_per_guild(s: Seq<SessionModel>) -> bool {
    forall|i: int, j: int|
        0 <= i < s.len() && 0 <= j < s.len() && i != j ==> (#[trigger] s[i]).guild != (
        #[trigger] s[j]).guild
}

/// No guild has two sessions, and every queue is well formed.
pub open spec fn sessions_wf(s: Seq<SessionModel>) -> bool {
    &&& one_per_guild(s)
    &&& forall|i: int| 0 <= i < s.len() ==> (#[trigger] s[i]).queue.wf()
}

/// The position of the session of `guild`.
pub open spec fn index_of(s: Seq<SessionModel>, guild: u64) -> int
    recommends
        has_session(s, guild),
{
    choose|i: int| 0 <= i < s.len() && (#[trigger] s[i]).guild == guild
}

/// The queue of the session of `guild`.
pub open spec fn queue_of(s: Seq<SessionModel>, guild: u64) -> QueueModel
    recommends
        has_session(s, guild),
{
    s[index_of(s, guild)].queue
}

/// The channel of the session of `guild`.
pub open spec fn channel_of(s: Seq<SessionModel>, guild: u64) -> u64
    recommends
        has_session(s, guild),
{
    s[index_of(s, guild)].channel
}

/// The sessions `s` with the queue of `guild` replaced by `queue`.
pub open spec fn with_queue(s: Seq<SessionModel>, guild: u64, queue: QueueModel) -> Seq<
    SessionModel,
>
    recommends
        has_session(s, guild),
{
    let i = index_of(s, guild);
    s.update(i, SessionModel { queue, ..s[i] })
}

/// A session for `guild` that has just been created.
pub open spec fn fresh_session(guild: u64, channel: u64) -> SessionModel {
    SessionModel { guild, channel, queue: QueueModel { entries: Seq::empty(), next_handle: 0 } }
}

/// The sessions after `guild` joined: unchanged if it had a session, with a
/// fresh session at the end otherwise.
pub open spec fn joined(s: Seq<SessionModel>, guild: u64, channel: u64) -> Seq<SessionModel> {
    if has_session(s, guild) {
        s
    } else {
        s.push(fresh_session(guild, channel))
    }
}

/// The number of sessions of `s` that belong to `guild`.
pub open spec fn session_count(s: Seq<SessionModel>, guild: u64) -> nat
    decreases s.len(),
{
    if s.len() == 0 {
        0
    } else {
        session_count(s.drop_last(), guild) + if s.last().guild == guild {
            1nat
        } else {
            0nat
        }
    }
}

/// In a registry where no guild has two sessions, a guild has one session
/// or none.
pub proof fn lemma_at_most_one_session(s: Seq<SessionModel>, guild: u64)
    requires
        one_per_guild(s),
    ensures
        session_count(s, guild) == if has_session(s, guild) {
            1nat
        } else {
            0nat
        },
    decreases s.len(),
{
    if s.len() > 0 {
        let t = s.drop_last();
        assert forall|i: int, j: int| 0 <= i < t.len() && 0 <= j < t.len() && i != j implies (
        #[trigger] t[i]).guild != (#[trigger] t[j]).guild by {
            assert(t[i] == s[i]);
            assert(t[j] == s[j]);
        }
        lemma_at_most_one_session(t, guild);
        if has_session(t, guild) {
            let i = choose|i: int| 0 <= i < t.len() && (#[trigger] t[i]).guild == guild;
            assert(s[i] == t[i]);
            assert(s[i].guild == guild);
            assert(s[s.len() - 1].guild != s[i].guild);
        } else if s.last().guild == guild {
            assert(s[s.len() - 1].guild == guild);
        } else {
            if has_session(s, guild) {
                let i = choose|i: int| 0 <= i < s.len() && (#[trigger] s[i]).guild == guild;
                assert(t[i] == s[i]);
                assert(false);
            }
        }
    }
}

/// Joining keeps the registry well formed and is idempotent: after any
/// number of joins for a guild it has exactly one session, the one that the
/// first join found or created.
pub proof fn lemma_join_once(s: Seq<SessionModel>, guild: u64, first: u64, second: u64)
    requires
        sessions_wf(s),
    ensures
        sessions_wf(joined(s, guild, first)),
        has_session(joined(s, guild, first), guild),
        session_count(joined(s, guild, first), guild) == 1,
        joined(joined(s, guild, first), guild, second) == joined(s, guild, first),
{
    let t = joined(s, guild, first);
    if !has_session(s, guild) {
        assert(t[s.len() as int].guild == guild);
        assert forall|i: int, j: int| 0 <= i < t.len() && 0 <= j < t.len() && i != j implies (
        #[trigger] t[i]).guild != (#[trigger] t[j]).guild by {
            if i < s.len() {
                assert(t[i] == s[i]);
            }
            if j < s.len() {
                assert(t[j] == s[j]);
            }
        }
        assert forall|k: int| 0 <= k < t.len() implies (#[trigger] t[k]).queue.wf() by {
            if k < s.len() {
                assert(t[k] == s[k]);
            }
        }
    }
    lemma_at_most_one_session(t, guild);
}

/// In a well-formed registry the session found for a guild is the session
/// of that guild, and replacing its queue by a well-formed one keeps the
/// registry well formed.
proof fn lemma_session_at(s: Seq<SessionModel>, guild: u64, i: int, queue: QueueModel)
    requires
        sessions_wf(s),
        0 <= i < s.len(),
        s[i].guild == guild,
        queue.wf(),
    ensures
        has_session(s, guild),
        index_of(s, guild) == i,
        with_queue(s, guild, queue) == s.update(i, SessionModel { queue, ..s[i] }),
        sessions_wf(with_queue(s, guild, queue)),
        has_session(with_queue(s, guild, queue), guild),
{
    let j = index_of(s, guild);
    assert(0 <= j < s.len() && s[j].guild == guild);
    assert(j == i);
    let t = with_queue(s, guild, queue);
    assert forall|a: int, b: int| 0 <= a < t.len() && 0 <= b < t.len() && a != b implies (
    #[trigger] t[a]).guild != (#[trigger] t[b]).guild by {
        assert(t[a].guild == s[a].guild);
        assert(t[b].guild == s[b].guild);
    }
    assert forall|k: int| 0 <= k < t.len() implies (#[trigger] t[k]).queue.wf() by {
        if k != i {
            assert(t[k] == s[k]);
        }
    }
    assert(t[i].guild == guild);
}

/// Guilds are independent: replacing the queue of one guild leaves every
/// other guild with the session it had.
pub proof fn lemma_guilds_independent(
    s: Seq<SessionModel>,
    guild: u64,
    queue: QueueModel,
    other: u64,
)
    requires
        one_per_guild(s),
        has_session(s, guild),
        other != guild,
    ensures
        has_session(with_queue(s, guild, queue), other) == has_session(s, other),
        has_session(s, other) ==> with_queue(s, guild, queue)[index_of(
            with_queue(s, guild, queue),
            other,
        )] == s[index_of(s, other)],
{
    let i = index_of(s, guild);
    let t = with_queue(s, guild, queue);
    assert(0 <= i < s.len() && s[i].guild == guild);
    assert forall|k: int| 0 <= k < s.len() implies (#[trigger] t[k]).guild == s[k].guild && (k
        != i ==> t[k] == s[k]) by {}
    if has_session(s, other) {
        let j = index_of(s, other);
        assert(0 <= j < s.len() && s[j].guild == other);
        assert(t[j].guild == other);
        let k = index_of(t, other);
        assert(0 <= k < t.len() && t[k].guild == other);
        assert(s[k].guild == t[k].guild);
        if k != j {
            assert(s[k].guild != s[j].guild);
        }
    }
    if has_session(t, other) {
        let k = index_of(t, other);
        assert(0 <= k < t.len() && t[k].guild == other);
        assert(s[k].guild == t[k].guild);
    }
}

/// Removing a session keeps the registry well formed and leaves its guild
/// without a session.
proof fn lemma_remove_session(s: Seq<SessionModel>, i: int)
    requires
        sessions_wf(s),
        0 <= i < s.len(),
    ensures
        sessions_wf(s.remove(i)),
        !has_session(s.remove(i), s[i].guild),
{
    let t = s.remove(i);
    assert forall|k: int| 0 <= k < t.len() implies (#[trigger] t[k]).guild != s[i].guild && t[k]
        == s[if k < i {
        k
    } else {
        k + 1
    }] by {
        let k0 = if k < i {
            k
        } else {
            k + 1
        };
        assert(t[k] == s[k0]);
        assert(s[k0].guild != s[i].guild);
    }
    assert forall|a: int, b: int| 0 <= a < t.len() && 0 <= b < t.len() && a != b implies (
    #[trigger] t[a]).guild != (#[trigger] t[b]).guild by {
        let a0 = if a < i {
            a
        } else {
            a + 1
        };
        let b0 = if b < i {
            b
        } else {
            b + 1
        };
        assert(t[a] == s[a0]);
        assert(t[b] == s[b0]);
        assert(s[a0].guild != s[b0].guild);
    }
    assert forall|k: int| 0 <= k < t.len() implies (#[trigger] t[k]).queue.wf() by {
        let k0 = if k < i {
            k
        } else {
            k + 1
        };
        assert(t[k] == s[k0]);
        assert(s[k0].queue.wf());
    }
}

/// Process-wide map from guild to its session.
#[derive(Debug)]
pub struct SessionRegistry {
    sessions: Vec<GuildSession>,
}

impl View for SessionRegistry {
    type V = Seq<SessionModel>;

    closed spec fn view(&self) -> Seq<SessionModel> {
        Seq::new(self.sessions@.len(), |i: int| self.sessions@[i]@)
    }
}

impl SessionRegistry {
    /// The invariant of the registry, see [`sessions_wf`].
    pub open spec fn wf(&self) -> bool {
        sessions_wf(self@)
    }

    /// A registry without sessions.
    pub fn new() -> (r: SessionRegistry)
        ensures
            r.wf(),
            r@.len() == 0,
    {
        SessionRegistry { sessions: Vec::new() }
    }

    /// Number of sessions.
    pub fn len(&self) -> (n: usize)
        ensures
            n == self@.len(),
    {
        self.sessions.len()
    }

    /// Finds the session of `guild`.
    fn find(&self, guild: u64) -> (at: Option<usize>)
        ensures
            at is Some ==> at->0 < self@.len() && self@[at->0 as int].guild == guild,
            at is None ==> !has_session(self@, guild),
    {
        let mut i: usize = 0;
        while i < self.sessions.len()
            invariant
                i <= self.sessions@.len(),
                forall|k: int| 0 <= k < i ==> (#[trigger] self@[k]).guild != guild,
            decreases self.sessions@.len() - i,
        {
            if self.sessions[i].guild == guild {
                return Some(i);
            }
            i = i + 1;
        }
        None
    }

    /// The session of `guild`, if it has one.
    pub fn get(&self, guild: u64) -> (s: Option<&GuildSession>)
        requires
            self.wf(),
        ensures
            s.is_some() == has_session(self@, guild),
            s.is_some() ==> s.unwrap()@ == self@[index_of(self@, guild)] && s.unwrap()@.guild
                == guild && s.unwrap().queue.wf(),
    {
        match self.find(guild) {
            Some(i) => {
                proof {
                    lemma_session_at(self@, guild, i as int, self@[i as int].queue);
                }
                Some(&self.sessions[i])
            },
            None => None,
        }
    }

    /// Makes sure that `guild` has a session. A guild that has one keeps it
    /// unchanged, whatever `channel` is; otherwise a session with an idle
    /// queue is added for `channel`.
    pub fn join(&mut self, guild: u64, channel: u64) -> (outcome: JoinOutcome)
        requires
            old(self).wf(),
        ensures
            final(self).wf(),
            has_session(final(self)@, guild),
            final(self)@ == joined(old(self)@, guild, channel),
            outcome == if has_session(old(self)@, guild) {
                JoinOutcome::AlreadyConnected
            } else {
                JoinOutcome::Created
            },
    {
        match self.find(guild) {
            Some(i) => {
                proof {
                    assert(self@[i as int].guild == guild);
                }
                JoinOutcome::AlreadyConnected
            },
            None => {
                let queue = PlaybackQueue::new();
                proof {
                    assert(queue@ == (QueueModel { entries: Seq::empty(), next_handle: 0 })) by {
                        assert(queue@.entries =~= Seq::<EntryModel>::empty());
                    }
                }
                self.sessions.push(GuildSession { guild, channel, queue });
                proof {
                    let added = SessionModel {
                        guild,
                        channel,
                        queue: QueueModel { entries: Seq::empty(), next_handle: 0 },
                    };
                    assert(final(self)@ =~= old(self)@.push(added));
                    assert(final(self)@[old(self)@.len() as int].guild == guild);
                }
                JoinOutcome::Created
            },
        }
    }

    /// Drops the session of `guild`, and its queue with it; this is also what
    /// follows a transport connection that was lost. Without a session
    /// nothing changes and the error is `NotConnected`. Returns the handle of
    /// the entry that was playing, if any.
    pub fn leave(&mut self, guild: u64) -> (r: Result<Option<u64>, SessionError>)
        requires
            old(self).wf(),
        ensures
            final(self).wf(),
            !has_session(final(self)@, guild),
            !has_session(old(self)@, guild) ==> r is Err && r->Err_0 == SessionError::NotConnected
                && final(self)@ == old(self)@,
            has_session(old(self)@, guild) ==> r is Ok && final(self)@ == old(self)@.remove(
                index_of(old(self)@, guild),
            ) && r->Ok_0 == (match queue_of(old(self)@, guild).current() {
                Some(e) => e.handle,
                None => None,
            }),
    {
        match self.find(guild) {
            Some(i) => {
                proof {
                    lemma_session_at(old(self)@, guild, i as int, old(self)@[i as int].queue);
                }
                let mut dropped = self.sessions.remove(i);
                proof {
                    assert(dropped@ == old(self)@[i as int]);
                    assert(final(self)@ =~= old(self)@.remove(i as int));
                    lemma_remove_session(old(self)@, i as int);
                }
                let halted = dropped.queue.stop();
                Ok(halted)
            },
            None => Err(SessionError::NotConnected),
        }
    }

    /// Whether the queue of `guild` can take one more entry; `false` if the
    /// guild has no session.
    pub fn has_room(&self, guild: u64) -> (b: bool)
        requires
            self.wf(),
        ensures
            b == (has_session(self@, guild) && queue_of(self@, guild).has_room()),
    {
        match self.find(guild) {
            Some(i) => {
                proof {
                    lemma_session_at(self@, guild, i as int, self@[i as int].queue);
                }
                self.sessions[i].queue.has_room()
            },
            None => false,
        }
    }

    /// Adds `track` to the queue of `guild`, see [`PlaybackQueue::enqueue`].
    /// Without a session nothing changes and the error is `NotConnected`.
    pub fn enqueue(&mut self, guild: u64, track: ResolvedTrack) -> (r: Result<
        QueueEntry,
        SessionError,
    >)
        requires
            old(self).wf(),
            has_session(old(self)@, guild) ==> queue_of(old(self)@, guild).has_room(),
        ensures
            final(self).wf(),
            has_session(final(self)@, guild) == has_session(old(self)@, guild),
            !has_session(old(self)@, guild) ==> r is Err && r->Err_0 == SessionError::NotConnected
                && final(self)@ == old(self)@,
            has_session(old(self)@, guild) ==> r is Ok && final(self)@ == with_queue(
                old(self)@,
                guild,
                queue_of(old(self)@, guild).enqueued(track@),
            ) && r->Ok_0@ == queue_of(final(self)@, guild).entries.last(),
    {
        match self.find(guild) {
            Some(i) => {
                proof {
                    lemma_session_at(old(self)@, guild, i as int, old(self)@[i as int].queue);
                }
                let mut session = self.sessions.remove(i);
                let entry = session.queue.enqueue(track);
                self.sessions.insert(i, session);
                proof {
                    let q = old(self)@[i as int].queue.enqueued(track@);
                    lemma_session_at(old(self)@, guild, i as int, q);
                    assert(final(self)@ =~= with_queue(old(self)@, guild, q));
                    lemma_session_at(final(self)@, guild, i as int, q);
                }
                Ok(entry)
            },
            None => Err(SessionError::NotConnected),
        }
    }

    /// Skips the playing entry of `guild`, see [`PlaybackQueue::skip`].
    /// Without a session the error is `NotConnected`, with an idle queue it
    /// is `QueueEmpty`; in both cases nothing changes.
    pub fn skip(&mut self, guild: u64) -> (r: Result<Advance, SessionError>)
        requires
            old(self).wf(),
        ensures
            final(self).wf(),
            has_session(final(self)@, guild) == has_session(old(self)@, guild),
            !has_session(old(self)@, guild) ==> r is Err && r->Err_0 == SessionError::NotConnected
                && final(self)@ == old(self)@,
            has_session(old(self)@, guild) && queue_of(old(self)@, guild).idle() ==> r is Err
                && r->Err_0 == SessionError::QueueEmpty && final(self)@ == old(self)@,
            has_session(old(self)@, guild) && !queue_of(old(self)@, guild).idle() ==> {
                &&& r is Ok
                &&& final(self)@ == with_queue(
                    old(self)@,
                    guild,
                    queue_of(old(self)@, guild).advanced(),
                )
                &&& r->Ok_0.closed@ == (EntryModel {
                    state: EntryState::Finished,
                    ..queue_of(old(self)@, guild).entries[0]
                })
                &&& r->Ok_0.started.is_some() == (queue_of(old(self)@, guild).entries.len() > 1)
                &&& r->Ok_0.started.is_some() ==> Some(r->Ok_0.started.unwrap()@) == queue_of(
                    final(self)@,
                    guild,
                ).current()
            },
    {
        match self.find(guild) {
            Some(i) => {
                proof {
                    lemma_session_at(old(self)@, guild, i as int, old(self)@[i as int].queue);
                }
                let mut session = self.sessions.remove(i);
                let skipped = session.queue.skip();
                self.sessions.insert(i, session);
                proof {
                    let q = session.queue@;
                    lemma_session_at(old(self)@, guild, i as int, q);
                    assert(final(self)@ =~= with_queue(old(self)@, guild, q));
                    lemma_session_at(final(self)@, guild, i as int, q);
                    if old(self)@[i as int].queue.idle() {
                        assert(final(self)@ =~= old(self)@);
                    }
                }
                match skipped {
                    Ok(advance) => Ok(advance),
                    Err(_) => Err(SessionError::QueueEmpty),
                }
            },
            None => Err(SessionError::NotConnected),
        }
    }

    /// Clears the queue of `guild`, see [`PlaybackQueue::stop`]. Without a
    /// session nothing changes and the error is `NotConnected`.
    pub fn stop(&mut self, guild: u64) -> (r: Result<Option<u64>, SessionError>)
        requires
            old(self).wf(),
        ensures
            final(self).wf(),
            has_session(final(self)@, guild) == has_session(old(self)@, guild),
            !has_session(old(self)@, guild) ==> r is Err && r->Err_0 == SessionError::NotConnected
                && final(self)@ == old(self)@,
            has_session(old(self)@, guild) ==> r is Ok && final(self)@ == with_queue(
                old(self)@,
                guild,
                queue_of(old(self)@, guild).cleared(),
            ) && r->Ok_0 == (match queue_of(old(self)@, guild).current() {
                Some(e) => e.handle,
                None => None,
            }),
    {
        match self.find(guild) {
            Some(i) => {
                proof {
                    lemma_session_at(old(self)@, guild, i as int, old(self)@[i as int].queue);
                }
                let mut session = self.sessions.remove(i);
                let halted = session.queue.stop();
                self.sessions.insert(i, session);
                proof {
                    let q = old(self)@[i as int].queue.cleared();
                    lemma_session_at(old(self)@, guild, i as int, q);
                    assert(final(self)@ =~= with_queue(old(self)@, guild, q));
                }
                Ok(halted)
            },
            None => Err(SessionError::NotConnected),
        }
    }

    /// A snapshot of the queue of `guild`, see [`PlaybackQueue::status`].
    /// Without a session the error is `NotConnected`.
    pub fn status(&self, guild: u64) -> (r: Result<QueueStatus, SessionError>)
        requires
            self.wf(),
        ensures
            !has_session(self@, guild) ==> r is Err && r->Err_0 == SessionError::NotConnected,
            has_session(self@, guild) ==> {
                &&& r is Ok
                &&& r->Ok_0.length == queue_of(self@, guild).entries.len()
                &&& r->Ok_0.current.is_some() == !queue_of(self@, guild).idle()
                &&& r->Ok_0.current.is_some() ==> Some(r->Ok_0.current.unwrap()@) == queue_of(
                    self@,
                    guild,
                ).current()
            },
    {
        match self.find(guild) {
            Some(i) => {
                proof {
                    lemma_session_at(self@, guild, i as int, self@[i as int].queue);
                }
                Ok(self.sessions[i].queue.status())
            },
            None => Err(SessionError::NotConnected),
        }
    }

    /// Reacts to a lifecycle event that the transport reports for `handle`
    /// in `guild`, see [`PlaybackQueue::on_track_event`]. If the guild has a
    /// session and `handle` is its playing entry, the queue advances and the
    /// notice names the channel that the status message goes to. In every
    /// other case nothing changes and the result is `None`.
    pub fn on_track_event(&mut self, guild: u64, handle: u64, kind: TrackEventKind) -> (out:
        Option<Notice>)
        requires
            old(self).wf(),
        ensures
            final(self).wf(),
            has_session(final(self)@, guild) == has_session(old(self)@, guild),
            out.is_some() == (has_session(old(self)@, guild) && queue_of(
                old(self)@,
                guild,
            ).is_current(handle)),
            out.is_none() ==> final(self)@ == old(self)@,
            out.is_some() ==> {
                &&& final(self)@ == with_queue(
                    old(self)@,
                    guild,
                    queue_of(old(self)@, guild).advanced(),
                )
                &&& out.unwrap().channel == channel_of(old(self)@, guild)
                &&& out.unwrap().kind == kind
                &&& out.unwrap().advance.closed@ == (EntryModel {
                    state: closing_state(kind),
                    ..queue_of(old(self)@, guild).entries[0]
                })
                &&& out.unwrap().advance.started.is_some() == (queue_of(
                    old(self)@,
                    guild,
                ).entries.len() > 1)
                &&& out.unwrap().advance.started.is_some() ==> Some(
                    out.unwrap().advance.started.unwrap()@,
                ) == queue_of(final(self)@, guild).current()
            },
    {
        match self.find(guild) {
            Some(i) => {
                proof {
                    lemma_session_at(old(self)@, guild, i as int, old(self)@[i as int].queue);
                }
                let mut session = self.sessions.remove(i);
                let channel = session.channel;
                let advanced = session.queue.on_track_event(handle, kind);
                self.sessions.insert(i, session);
                proof {
                    let q = session.queue@;
                    lemma_session_at(old(self)@, guild, i as int, q);
                    assert(final(self)@ =~= with_queue(old(self)@, guild, q));
                    lemma_session_at(final(self)@, guild, i as int, q);
                    if !old(self)@[i as int].queue.is_current(handle) {
                        assert(final(self)@ =~= old(self)@);
                    }
                }
                match advanced {
                    Some(advance) => Some(Notice { channel, kind, advance }),
                    None => None,
                }
            },
            None => None,
        }
    }
}

} // verus!
