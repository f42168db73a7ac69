use songbot::queue::EnqueueOutcome;
use songbot::queue::GuildQueue;
use songbot::track::PlaybackState;
use songbot::track::Song;

fn track(title: &str) -> Song {
    Song::from_video(title, "channel", "requester#0001".to_string(), 180, "dQw4w9WgXcQ")
}

#[test]
fn first_enqueue_starts_immediately() {
    let mut q = GuildQueue::new();
    let r = q.enqueue_or_start(track("A"));
    assert!(matches!(r, EnqueueOutcome::StartedImmediately));
    assert_eq!(q.now_playing.as_ref().unwrap().title, "A");
    assert!(q.pending.is_empty());
}

#[test]
fn later_enqueues_report_fifo_positions() {
    let mut q = GuildQueue::new();
    let r0 = q.enqueue_or_start(track("A"));
    assert!(matches!(r0, EnqueueOutcome::StartedImmediately));
    let r1 = q.enqueue_or_start(track("B"));
    assert!(matches!(r1, EnqueueOutcome::Enqueued { position: 1 }));
    let r2 = q.enqueue_or_start(track("C"));
    assert!(matches!(r2, EnqueueOutcome::Enqueued { position: 2 }));
    let r3 = q.enqueue_or_start(track("D"));
    assert!(matches!(r3, EnqueueOutcome::Enqueued { position: 3 }));
    assert_eq!(q.pending.len(), 3);
    assert_eq!(q.pending[0].title, "B");
    assert_eq!(q.pending[1].title, "C");
    assert_eq!(q.pending[2].title, "D");
}

#[test]
fn shift_promotes_first_pending() {
    let mut q = GuildQueue::new();
    q.enqueue_or_start(track("A"));
    q.enqueue_or_start(track("B"));
    q.enqueue_or_start(track("C"));
    q.shift_forward();
    assert_eq!(q.now_playing.as_ref().unwrap().title, "B");
    assert_eq!(q.pending.len(), 1);
    assert_eq!(q.pending[0].title, "C");
    q.shift_forward();
    assert_eq!(q.now_playing.as_ref().unwrap().title, "C");
    assert!(q.pending.is_empty());
    q.shift_forward();
    assert!(q.now_playing.is_none());
    assert!(q.pending.is_empty());
    q.shift_forward();
    assert!(q.now_playing.is_none());
    assert!(q.pending.is_empty());
}

#[test]
fn drain_round_trip_keeps_submission_order() {
    let mut q = GuildQueue::new();
    let titles = ["one", "two", "three", "four", "five"];
    for t in titles {
        q.enqueue_or_start(track(t));
    }
    let mut seen: Vec<String> = Vec::new();
    while let Some(s) = &q.now_playing {
        seen.push(s.title.clone());
        q.shift_forward();
    }
    assert_eq!(seen, titles.map(String::from).to_vec());
    assert!(q.now_playing.is_none());
    assert!(q.pending.is_empty());
}

#[test]
fn skip_drops_only_the_current_track() {
    let mut q = GuildQueue::new();
    q.enqueue_or_start(track("A"));
    q.enqueue_or_start(track("B"));
    q.skip();
    assert!(q.now_playing.is_none());
    assert_eq!(q.pending.len(), 1);
    assert_eq!(q.pending[0].title, "B");
}

#[test]
fn clear_empties_the_whole_queue() {
    let mut q = GuildQueue::new();
    q.enqueue_or_start(track("A"));
    q.enqueue_or_start(track("B"));
    q.enqueue_or_start(track("C"));
    q.clear();
    assert!(q.now_playing.is_none());
    assert!(q.pending.is_empty());
}

#[test]
fn snapshots_copy_current_and_upcoming() {
    let mut q = GuildQueue::new();
    assert!(q.now_playing_snapshot().is_none());
    q.enqueue_or_start(track("A"));
    for i in 0..12 {
        q.enqueue_or_start(track(&format!("pending-{}", i)));
    }
    let current = q.now_playing_snapshot().unwrap();
    assert_eq!(current.title, "A");
    assert!(matches!(current.playback, PlaybackState::Pending));
    let preview = q.upcoming(10);
    assert_eq!(preview.len(), 10);
    for i in 0..10 {
        assert_eq!(preview[i].title, format!("pending-{}", i));
    }
    let all = q.upcoming(100);
    assert_eq!(all.len(), 12);
}
