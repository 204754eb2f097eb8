use voice_playback::queue::{EntryState, PlaybackQueue, QueueError, TrackEventKind};
use voice_playback::resolver::{general, stream};
use voice_playback::track::{ResolvedTrack, Stage};

fn track(uri: &str) -> ResolvedTrack {
    ResolvedTrack { uri: uri.to_string(), args: general(), path: Stage::Direct }
}

#[test]
fn new_queue_is_idle() {
    let q = PlaybackQueue::new();
    assert_eq!(q.len(), 0);
    assert!(q.is_idle());
    assert!(q.has_room());
    let s = q.status();
    assert_eq!(s.length, 0);
    assert_eq!(s.current, None);
}

#[test]
fn enqueue_on_idle_queue_plays_at_once() {
    let mut q = PlaybackQueue::new();
    let e = q.enqueue(track("a"));
    assert_eq!(e.state, EntryState::Playing);
    assert_eq!(e.handle, Some(0));
    assert_eq!(e.track, track("a"));
    assert!(!q.is_idle());
    assert!(q.is_current(0));
    assert_eq!(q.len(), 1);
}

#[test]
fn enqueue_on_busy_queue_appends_and_keeps_current() {
    let mut q = PlaybackQueue::new();
    q.enqueue(track("a"));
    let b = q.enqueue(track("b"));
    let c = q.enqueue(track("c"));
    assert_eq!(b.state, EntryState::Pending);
    assert_eq!(b.handle, None);
    assert_eq!(c.state, EntryState::Pending);
    assert_eq!(q.len(), 3);
    let s = q.status();
    assert_eq!(s.length, 3);
    let cur = s.current.unwrap();
    assert_eq!(cur.track.uri, "a");
    assert_eq!(cur.state, EntryState::Playing);
    assert_eq!(cur.handle, Some(0));
}

#[test]
fn tracks_leave_in_order_of_arrival() {
    let mut q = PlaybackQueue::new();
    q.enqueue(track("a"));
    q.enqueue(track("b"));
    q.enqueue(track("c"));
    let first = q.skip().unwrap();
    assert_eq!(first.closed.track.uri, "a");
    assert_eq!(first.started.unwrap().track.uri, "b");
    let second = q.skip().unwrap();
    assert_eq!(second.closed.track.uri, "b");
    assert_eq!(second.started.unwrap().track.uri, "c");
    let third = q.skip().unwrap();
    assert_eq!(third.closed.track.uri, "c");
    assert_eq!(third.started, None);
    assert!(q.is_idle());
}

#[test]
fn skip_discards_current_and_starts_next() {
    let mut q = PlaybackQueue::new();
    q.enqueue(track("a"));
    q.enqueue(track("b"));
    q.enqueue(track("c"));
    let adv = q.skip().unwrap();
    assert_eq!(adv.closed.state, EntryState::Finished);
    assert_eq!(adv.closed.handle, Some(0));
    assert_eq!(adv.closed.track.uri, "a");
    let started = adv.started.unwrap();
    assert_eq!(started.state, EntryState::Playing);
    assert_eq!(started.handle, Some(1));
    assert_eq!(started.track.uri, "b");
    assert_eq!(q.len(), 2);
    let s = q.status();
    assert_eq!(s.current.unwrap().track.uri, "b");
}

#[test]
fn skip_on_last_entry_leaves_queue_idle() {
    let mut q = PlaybackQueue::new();
    q.enqueue(track("a"));
    let adv = q.skip().unwrap();
    assert_eq!(adv.closed.track.uri, "a");
    assert_eq!(adv.started, None);
    assert!(q.is_idle());
    assert_eq!(q.len(), 0);
}

#[test]
fn skip_on_idle_queue_is_queue_empty() {
    let mut q = PlaybackQueue::new();
    assert_eq!(q.skip(), Err(QueueError::QueueEmpty));
    assert!(q.is_idle());
    q.enqueue(track("a"));
    q.skip().unwrap();
    assert_eq!(q.skip(), Err(QueueError::QueueEmpty));
}

#[test]
fn stop_on_idle_queue_does_nothing() {
    let mut q = PlaybackQueue::new();
    assert_eq!(q.stop(), None);
    assert!(q.is_idle());
    assert_eq!(q.len(), 0);
}

#[test]
fn stop_clears_queue_and_names_halted_handle() {
    let mut q = PlaybackQueue::new();
    q.enqueue(track("a"));
    q.skip().unwrap();
    q.enqueue(track("b"));
    q.enqueue(track("c"));
    assert_eq!(q.stop(), Some(1));
    assert!(q.is_idle());
    assert_eq!(q.len(), 0);
    let e = q.enqueue(track("d"));
    assert_eq!(e.handle, Some(2));
    assert_eq!(e.state, EntryState::Playing);
}

#[test]
fn status_does_not_change_the_queue() {
    let mut q = PlaybackQueue::new();
    q.enqueue(track("a"));
    q.enqueue(track("b"));
    let first = q.status();
    let second = q.status();
    assert_eq!(first, second);
    assert_eq!(q.len(), 2);
    assert!(q.is_current(0));
}

#[test]
fn ended_event_finishes_current_and_advances() {
    let mut q = PlaybackQueue::new();
    q.enqueue(track("a"));
    q.enqueue(track("b"));
    let adv = q.on_track_event(0, TrackEventKind::Ended).unwrap();
    assert_eq!(adv.closed.state, EntryState::Finished);
    assert_eq!(adv.closed.track.uri, "a");
    assert_eq!(adv.started.unwrap().handle, Some(1));
    assert!(q.is_current(1));
}

#[test]
fn errored_event_fails_current_and_advances() {
    let mut q = PlaybackQueue::new();
    q.enqueue(track("a"));
    q.enqueue(track("b"));
    let adv = q.on_track_event(0, TrackEventKind::Errored).unwrap();
    assert_eq!(adv.closed.state, EntryState::Failed);
    assert_eq!(adv.started.unwrap().track.uri, "b");
    assert_eq!(q.len(), 1);
}

#[test]
fn error_then_end_for_same_handle_advances_once() {
    let mut q = PlaybackQueue::new();
    q.enqueue(track("a"));
    q.enqueue(track("b"));
    q.enqueue(track("c"));
    assert!(q.on_track_event(0, TrackEventKind::Errored).is_some());
    assert_eq!(q.on_track_event(0, TrackEventKind::Ended), None);
    assert_eq!(q.len(), 2);
    assert!(q.is_current(1));
    assert_eq!(q.status().current.unwrap().track.uri, "b");
}

#[test]
fn event_for_discarded_entry_is_ignored() {
    let mut q = PlaybackQueue::new();
    q.enqueue(track("a"));
    assert_eq!(q.stop(), Some(0));
    q.enqueue(track("b"));
    assert_eq!(q.on_track_event(0, TrackEventKind::Ended), None);
    assert_eq!(q.len(), 1);
    assert!(q.is_current(1));
}

#[test]
fn event_on_idle_queue_is_ignored() {
    let mut q = PlaybackQueue::new();
    assert_eq!(q.on_track_event(0, TrackEventKind::Ended), None);
    assert_eq!(q.on_track_event(7, TrackEventKind::Errored), None);
    assert!(q.is_idle());
}

#[test]
fn duplicate_entry_has_the_same_value() {
    let mut q = PlaybackQueue::new();
    let e = q.enqueue(ResolvedTrack { uri: "x".to_string(), args: stream(), path: Stage::Fast });
    let d = e.duplicate();
    assert_eq!(d, e);
    assert_eq!(d.track.duplicate(), e.track);
}
