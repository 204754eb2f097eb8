//! The status messages that commands and lifecycle events answer with.

use vstd::prelude::*;
use vstd::string::*;
use crate::queue::{Advance, QueueStatus};
use crate::registry::SessionError;
use crate::resolver::{ResolveError, TrackRequest};
use crate::text::{decimal, decimal_digits};
use crate::track::ResolvedTrack;

verus! {

/// A status message.
#[derive(Debug, PartialEq, Eq)]
pub enum Reply {
    /// A track is being loaded.
    Loading,
    /// The URL was added to the queue.
    Added(String),
    /// The search text is looked up and added.
    Searching(String),
    /// The track could not be created.
    TrackNotCreated,
    /// A track was asked for without a session.
    JoinFirst,
    /// The guild has no session.
    NotConnected,
    /// Playback was stopped and the queue cleared.
    Stopped,
    /// The playing track was skipped.
    Skipped,
    /// There was nothing to skip.
    NothingToSkip,
    /// The queue holds nothing.
    QueueEmpty,
    /// The queue holds `length` entries, one of them playing if `playing`.
    QueueSummary { length: u64, playing: bool },
    /// The voice channel was joined.
    Joined(u64),
    /// The voice channel could not be joined.
    JoinFailed,
    /// The voice channel was left.
    Left,
    /// The transport failed to disconnect, with its message.
    LeaveFailed(String),
    /// There was no voice channel to leave.
    NothingToLeave,
    /// A track ended.
    TrackFinished,
    /// A track failed, with the transport's diagnostic if it gave one.
    TrackFailed(Option<String>),
}

impl Reply {
    /// The text of the message.
    pub open spec fn text_of(self) -> Seq<char> {
        match self {
            Reply::Loading => "🔄 Loading track..."@,
            Reply::Added(url) => "✅ Added to queue: "@ + url@,
            Reply::Searching(words) => "✅ Searching and adding: "@ + words@,
            Reply::TrackNotCreated => "❌ Failed to create track"@,
            Reply::JoinFirst => "❌ Not connected to voice channel. Use `!join` first"@,
            Reply::NotConnected => "❌ Not connected to voice channel"@,
            Reply::Stopped => "⏹️ Playback stopped and queue cleared"@,
            Reply::Skipped => "⏭️ Track skipped"@,
            Reply::NothingToSkip => "❌ Queue is empty"@,
            Reply::QueueEmpty => "📭 Queue is empty"@,
            Reply::QueueSummary { length, playing } => {
                let head = "🎵 **Queue ("@ + decimal_digits(length as nat) + " tracks)**\n"@;
                let now = if playing {
                    head + "▶️ **Now playing:** Current track\n"@
                } else {
                    head
                };
                if length > 1 {
                    now + "📄 **Next:** "@ + decimal_digits((length - 1) as nat)
                        + " track(s) in queue"@
                } else {
                    now
                }
            },
            Reply::Joined(channel) => "Joined the <#"@ + decimal_digits(channel as nat) + ">"@,
            Reply::JoinFailed => "Error when joining the channel"@,
            Reply::Left => "Left the voice channel"@,
            Reply::LeaveFailed(message) => "Error when disconnecting: "@ + message@,
            Reply::NothingToLeave => "Not connected to the voice channel"@,
            Reply::TrackFinished => "Track finished!"@,
            Reply::TrackFailed(Some(diagnostic)) => "❌ Error playing track: "@ + diagnostic@,
            Reply::TrackFailed(None) => "❌ Error playing track!"@,
        }
    }

    /// The text of the message.
    pub fn text(&self) -> (t: String)
        ensures
            t@ == self.text_of(),
    {
        match self {
            Reply::Loading => String::from_str("🔄 Loading track..."),
            Reply::Added(url) => String::from_str("✅ Added to queue: ").concat(url.as_str()),
            Reply::Searching(words) => String::from_str("✅ Searching and adding: ").concat(
                words.as_str(),
            ),
            Reply::TrackNotCreated => String::from_str("❌ Failed to create track"),
            Reply::JoinFirst => String::from_str(
                "❌ Not connected to voice channel. Use `!join` first",
            ),
            Reply::NotConnected => String::from_str("❌ Not connected to voice channel"),
            Reply::Stopped => String::from_str("⏹️ Playback stopped and queue cleared"),
            Reply::Skipped => String::from_str("⏭️ Track skipped"),
            Reply::NothingToSkip => String::from_str("❌ Queue is empty"),
            Reply::QueueEmpty => String::from_str("📭 Queue is empty"),
            Reply::QueueSummary { length, playing } => {
                let mut t = String::from_str("🎵 **Queue (");
                t.append(decimal(*length).as_str());
                t.append(" tracks)**\n");
                if *playing {
                    t.append("▶️ **Now playing:** Current track\n");
                }
                if *length > 1 {
                    t.append("📄 **Next:** ");
                    t.append(decimal(*length - 1).as_str());
                    t.append(" track(s) in queue");
                }
                t
            },
            Reply::Joined(channel) => {
                let mut t = String::from_str("Joined the <#");
                t.append(decimal(*channel).as_str());
                t.append(">");
                t
            },
            Reply::JoinFailed => String::from_str("Error when joining the channel"),
            Reply::Left => String::from_str("Left the voice channel"),
            Reply::LeaveFailed(message) => String::from_str("Error when disconnecting: ").concat(
                message.as_str(),
            ),
            Reply::NothingToLeave => String::from_str("Not connected to the voice channel"),
            Reply::TrackFinished => String::from_str("Track finished!"),
            Reply::TrackFailed(Some(diagnostic)) => String::from_str(
                "❌ Error playing track: ",
            ).concat(diagnostic.as_str()),
            Reply::TrackFailed(None) => String::from_str("❌ Error playing track!"),
        }
    }
}

/// The answer to a request for a track once resolution is over: a failed
/// resolution is reported as such; a resolved URL is announced as added, a
/// resolved search as looked up, each with the user's own words.
pub fn play_reply(request: &TrackRequest, resolved: &Result<ResolvedTrack, ResolveError>) -> (r:
    Reply)
    ensures
        resolved is Err ==> r is TrackNotCreated,
        resolved is Ok && request@.is_url ==> r is Added && r->Added_0@ == request@.input,
        resolved is Ok && !request@.is_url ==> r is Searching && r->Searching_0@
            == request@.input,
{
    match resolved {
        Err(_) => Reply::TrackNotCreated,
        Ok(_) => {
            if request.is_url() {
                Reply::Added(String::from_str(request.input()))
            } else {
                Reply::Searching(String::from_str(request.input()))
            }
        },
    }
}

/// The first answer to a request for a track: loading if the guild has a
/// session, else the advice to join first.
pub fn play_opening(connected: bool) -> (r: Reply)
    ensures
        connected ==> r is Loading,
        !connected ==> r is JoinFirst,
{
    if connected {
        Reply::Loading
    } else {
        Reply::JoinFirst
    }
}

/// The answer to a join, given whether the transport connected.
pub fn join_reply(connected: bool, channel: u64) -> (r: Reply)
    ensures
        connected ==> r is Joined && r->Joined_0 == channel,
        !connected ==> r is JoinFailed,
{
    if connected {
        Reply::Joined(channel)
    } else {
        Reply::JoinFailed
    }
}

/// The answer to a leave: nothing to leave without a session; otherwise the
/// transport's message if it failed to disconnect, else that the channel was
/// left.
pub fn leave_reply(left: &Result<Option<u64>, SessionError>, failure: Option<String>) -> (r:
    Reply)
    ensures
        left is Err ==> r is NothingToLeave,
        left is Ok && failure is Some ==> r is LeaveFailed && r->LeaveFailed_0@ == failure->0@,
        left is Ok && failure is None ==> r is Left,
{
    match left {
        Err(_) => Reply::NothingToLeave,
        Ok(_) => match failure {
            Some(message) => Reply::LeaveFailed(message),
            None => Reply::Left,
        },
    }
}

/// The answer to a skip.
pub fn skip_reply(skipped: &Result<Advance, SessionError>) -> (r: Reply)
    ensures
        skipped is Ok ==> r is Skipped,
        skipped is Err && skipped->Err_0 == SessionError::QueueEmpty ==> r is NothingToSkip,
        skipped is Err && skipped->Err_0 == SessionError::NotConnected ==> r is NotConnected,
{
    match skipped {
        Ok(_) => Reply::Skipped,
        Err(SessionError::QueueEmpty) => Reply::NothingToSkip,
        Err(SessionError::NotConnected) => Reply::NotConnected,
    }
}

/// The answer to a stop.
pub fn stop_reply(stopped: &Result<Option<u64>, SessionError>) -> (r: Reply)
    ensures
        stopped is Ok ==> r is Stopped,
        stopped is Err ==> r is NotConnected,
{
    match stopped {
        Ok(_) => Reply::Stopped,
        Err(_) => Reply::NotConnected,
    }
}

/// The answer to a request for the queue's status: the summary of a queue
/// that holds something, with the playing entry named if there is one.
pub fn queue_reply(status: &Result<QueueStatus, SessionError>) -> (r: Reply)
    ensures
        status is Err ==> r is NotConnected,
        status is Ok && status->Ok_0.length == 0 ==> r is QueueEmpty,
        status is Ok && status->Ok_0.length > 0 ==> r is QueueSummary && r->length
            == status->Ok_0.length && r->playing == status->Ok_0.current.is_some(),
{
    match status {
        Err(_) => Reply::NotConnected,
        Ok(s) => {
            if s.length == 0 {
                Reply::QueueEmpty
            } else {
                Reply::QueueSummary { length: s.length as u64, playing: s.current.is_some() }
            }
        },
    }
}

} // verus!
