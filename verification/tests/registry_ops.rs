use songbot::playback::PlaybackAction;
use songbot::playback::PlaybackEvent;
use songbot::queue::EnqueueOutcome;
use songbot::registry::QueueRegistry;
use songbot::track::Song;

fn track(title: &str) -> Song {
    Song::from_video(title, "channel", "requester#0001".to_string(), 90, "dQw4w9WgXcQ")
}

#[test]
fn get_or_create_never_duplicates_a_queue() {
    let mut reg = QueueRegistry::new();
    reg.get_or_create(17);
    assert_eq!(reg.queues.len(), 1);
    reg.enqueue_or_start(17, track("A"));
    reg.get_or_create(17);
    reg.get_or_create(17);
    assert_eq!(reg.queues.len(), 1);
    let q = reg.get(17).unwrap();
    assert_eq!(q.now_playing.as_ref().unwrap().title, "A");
}

#[test]
fn unknown_guild_has_no_queue_until_referenced() {
    let mut reg = QueueRegistry::new();
    assert!(reg.get(5).is_none());
    reg.get_or_create(5);
    let q = reg.get(5).unwrap();
    assert!(q.now_playing.is_none());
    assert!(q.pending.is_empty());
}

#[test]
fn interleaved_guilds_stay_isolated() {
    let mut reg = QueueRegistry::new();
    let rx = reg.enqueue_or_start(1, track("x-current"));
    assert!(matches!(rx, EnqueueOutcome::StartedImmediately));
    let ry = reg.enqueue_or_start(2, track("y-current"));
    assert!(matches!(ry, EnqueueOutcome::StartedImmediately));
    let rx2 = reg.enqueue_or_start(1, track("x-next"));
    assert!(matches!(rx2, EnqueueOutcome::Enqueued { position: 1 }));
    let ry2 = reg.enqueue_or_start(2, track("y-next"));
    assert!(matches!(ry2, EnqueueOutcome::Enqueued { position: 1 }));

    let act = reg.handle_event(1, PlaybackEvent::TrackEnded { call_alive: true });
    assert!(matches!(act, PlaybackAction::StartTrack { .. }));

    let qx = reg.get(1).unwrap();
    assert_eq!(qx.now_playing.as_ref().unwrap().title, "x-next");
    assert!(qx.pending.is_empty());

    let qy = reg.get(2).unwrap();
    assert_eq!(qy.now_playing.as_ref().unwrap().title, "y-current");
    assert_eq!(qy.pending.len(), 1);
    assert_eq!(qy.pending[0].title, "y-next");
}

#[test]
fn handle_event_creates_the_queue_for_a_new_guild() {
    let mut reg = QueueRegistry::new();
    let act = reg.handle_event(9, PlaybackEvent::TrackEnded { call_alive: true });
    assert!(matches!(act, PlaybackAction::DoNothing));
    let q = reg.get(9).unwrap();
    assert!(q.now_playing.is_none());
    assert!(q.pending.is_empty());
}
