use songbot::playback::PlaybackAction;
use songbot::playback::PlaybackEvent;
use songbot::playback::handle_playback_event;
use songbot::queue::EnqueueOutcome;
use songbot::queue::GuildQueue;
use songbot::track::PlaybackState;
use songbot::track::Song;
use songbot::track::SongSource;

fn track(title: &str, id: &str) -> Song {
    Song::from_video(title, "channel", "requester#0001".to_string(), 200, id)
}

#[test]
fn end_of_track_starts_the_next_exactly_once() {
    let mut q = GuildQueue::new();
    let a = q.enqueue_or_start(track("A", "aaaaaaaaaaa"));
    assert!(matches!(a, EnqueueOutcome::StartedImmediately));
    let b = q.enqueue_or_start(track("B", "bbbbbbbbbbb"));
    assert!(matches!(b, EnqueueOutcome::Enqueued { position: 1 }));

    let act = handle_playback_event(&mut q, PlaybackEvent::TrackEnded { call_alive: true });
    match act {
        PlaybackAction::StartTrack { source } => {
            let SongSource::YouTube { id, url } = source;
            assert_eq!(id, "bbbbbbbbbbb");
            assert_eq!(url, "https://youtube.com/watch?v=bbbbbbbbbbb");
        },
        _ => panic!("expected the next track to be handed back for starting"),
    }
    assert_eq!(q.now_playing.as_ref().unwrap().title, "B");
    assert!(q.pending.is_empty());

    let attach = handle_playback_event(&mut q, PlaybackEvent::StartSucceeded { session: 7 });
    assert!(matches!(attach, PlaybackAction::DoNothing));
    assert!(matches!(
        q.now_playing.as_ref().unwrap().playback,
        PlaybackState::Playing { session: 7 }
    ));
}

#[test]
fn end_of_last_track_leaves_the_queue_idle() {
    let mut q = GuildQueue::new();
    q.enqueue_or_start(track("A", "aaaaaaaaaaa"));
    let act = handle_playback_event(&mut q, PlaybackEvent::TrackEnded { call_alive: true });
    assert!(matches!(act, PlaybackAction::DoNothing));
    assert!(q.now_playing.is_none());
    assert!(q.pending.is_empty());
}

#[test]
fn torn_down_call_makes_track_end_a_no_op() {
    let mut q = GuildQueue::new();
    q.enqueue_or_start(track("A", "aaaaaaaaaaa"));
    q.enqueue_or_start(track("B", "bbbbbbbbbbb"));
    let act = handle_playback_event(&mut q, PlaybackEvent::TrackEnded { call_alive: false });
    assert!(matches!(act, PlaybackAction::DoNothing));
    assert_eq!(q.now_playing.as_ref().unwrap().title, "A");
    assert_eq!(q.pending.len(), 1);
}

#[test]
fn resolution_failure_leaves_the_attempted_track_current() {
    let mut q = GuildQueue::new();
    let r = q.enqueue_or_start(track("A", "aaaaaaaaaaa"));
    assert!(matches!(r, EnqueueOutcome::StartedImmediately));
    let act = handle_playback_event(&mut q, PlaybackEvent::StartFailed);
    assert!(matches!(act, PlaybackAction::ReportError));
    let current = q.now_playing.as_ref().unwrap();
    assert_eq!(current.title, "A");
    assert!(matches!(current.playback, PlaybackState::Pending));
    assert!(q.pending.is_empty());
}

#[test]
fn session_is_attached_exactly_once() {
    let mut q = GuildQueue::new();
    q.enqueue_or_start(track("A", "aaaaaaaaaaa"));
    handle_playback_event(&mut q, PlaybackEvent::StartSucceeded { session: 3 });
    handle_playback_event(&mut q, PlaybackEvent::StartSucceeded { session: 9 });
    assert!(matches!(
        q.now_playing.as_ref().unwrap().playback,
        PlaybackState::Playing { session: 3 }
    ));
}
