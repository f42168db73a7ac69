use vstd::prelude::*;

use crate::queue::GuildQueue;
use crate::queue::queue_wf;
use crate::queue::spec_shift;
use crate::track::PlaybackState;
use crate::track::Song;
use crate::track::SongSource;

verus! {

/// What the outside world reports to a guild's playback controller.
pub enum PlaybackEvent {
    /// The transport signalled that the current track finished (or was
    /// stopped by a skip). `call_alive` says whether the guild's voice
    /// session still exists at that moment.
    TrackEnded { call_alive: bool },
    /// The track picked to play now was resolved and started; `session`
    /// stands for the live playback handle the transport returned.
    StartSucceeded { session: u64 },
    /// Resolving or starting the track picked to play now failed.
    StartFailed,
}

/// What the caller must do next on behalf of the controller.
pub enum PlaybackAction {
    /// Resolve this source and start it on the transport, then report
    /// back with `StartSucceeded` or `StartFailed`.
    StartTrack { source: SongSource },
    /// Surface exactly one user-visible error; the queue is untouched.
    ReportError,
    /// Nothing to do.
    DoNothing,
}

/// The queue-advance protocol, run whenever the outside world reports a
/// playback event for a guild. The caller must already hold this guild's
/// exclusive queue guard, and must acquire the voice-call guard only
/// while performing the returned action — never the other way round.
///
/// A track end with the voice session gone is a no-op: the controller
/// never revives a torn-down call. A track end with the session alive
/// advances the queue and hands back the next track's source, if any. A
/// start failure leaves the queue exactly as the failed attempt found it,
/// so the attempted track stays current and is not retried by itself. A
/// start success attaches the playback session to the current track,
/// exactly once.
pub fn handle_playback_event(queue: &mut GuildQueue, event: PlaybackEvent) -> (act: PlaybackAction)
    ensures
        event matches PlaybackEvent::TrackEnded { call_alive: false } ==> final(queue)@
            == old(queue)@ && act is DoNothing,
        event matches PlaybackEvent::TrackEnded { call_alive: true } ==> {
            &&& final(queue)@ == spec_shift(old(queue)@)
            &&& (match spec_shift(old(queue)@).now_playing {
                Some(s) => act matches PlaybackAction::StartTrack { source } && source@
                    == s@.source,
                None => act is DoNothing,
            })
        },
        event matches PlaybackEvent::StartSucceeded { session } ==> {
            &&& final(queue)@.pending == old(queue)@.pending
            &&& (match old(queue)@.now_playing {
                Some(s) => if s.playback is Pending {
                    final(queue)@.now_playing == Some(
                        Song { playback: PlaybackState::Playing { session }, ..s },
                    )
                } else {
                    final(queue)@ == old(queue)@
                },
                None => final(queue)@ == old(queue)@,
            })
            &&& act is DoNothing
        },
        event is StartFailed ==> final(queue)@ == old(queue)@ && act is ReportError,
        queue_wf(old(queue)@) ==> queue_wf(final(queue)@),
{
    match event {
        PlaybackEvent::TrackEnded { call_alive } => {
            if call_alive {
                queue.shift_forward();
                match &queue.now_playing {
                    Some(s) => PlaybackAction::StartTrack { source: s.source.duplicate() },
                    None => PlaybackAction::DoNothing,
                }
            } else {
                PlaybackAction::DoNothing
            }
        },
        PlaybackEvent::StartSucceeded { session } => {
            match &mut queue.now_playing {
                Some(s) => {
                    match s.playback {
                        PlaybackState::Pending => {
                            s.playback = PlaybackState::Playing { session };
                        },
                        PlaybackState::Playing { .. } => {},
                    }
                },
                None => {},
            }
            PlaybackAction::DoNothing
        },
        PlaybackEvent::StartFailed => PlaybackAction::ReportError,
    }
}

} // verus!
