use vstd::prelude::*;

use std::collections::HashMap;

use crate::playback::PlaybackAction;
use crate::playback::PlaybackEvent;
use crate::playback::handle_playback_event;
use crate::queue::EnqueueOutcome;
use crate::queue::GuildQueue;
use crate::queue::QueueModel;
use crate::queue::empty_queue;
use crate::queue::spec_enqueue;
use crate::queue::spec_enqueue_position;
use crate::queue::spec_shift;
use crate::track::PlaybackState;
use crate::track::Song;

verus! {

broadcast use vstd::std_specs::hash::group_hash_axioms;

/// The queue a registry state associates with a guild id: the stored one,
/// or a fresh idle queue for an id never seen before.
pub open spec fn reg_get(m: Map<u64, QueueModel>, guild_id: u64) -> QueueModel {
    if m.contains_key(guild_id) {
        m[guild_id]
    } else {
        empty_queue()
    }
}

/// The registry state after a get-or-create: unchanged when the guild
/// already has a queue, extended by a fresh idle queue otherwise.
pub open spec fn spec_get_or_create(m: Map<u64, QueueModel>, guild_id: u64) -> Map<
    u64,
    QueueModel,
> {
    if m.contains_key(guild_id) {
        m
    } else {
        m.insert(guild_id, empty_queue())
    }
}

/// The registry state after one guild's enqueue-or-start decision.
pub open spec fn spec_reg_enqueue(m: Map<u64, QueueModel>, guild_id: u64, s: Song) -> Map<
    u64,
    QueueModel,
> {
    m.insert(guild_id, spec_enqueue(reg_get(m, guild_id), s))
}

/// The registry state after one guild's current track ended and its
/// queue advanced.
pub open spec fn spec_reg_shift(m: Map<u64, QueueModel>, guild_id: u64) -> Map<u64, QueueModel> {
    m.insert(guild_id, spec_shift(reg_get(m, guild_id)))
}

/// Law: get-or-create is idempotent. Once some call has created the queue
/// for an id, every later call observes exactly that queue and leaves the
/// registry unchanged — so no interleaving of get-or-create calls for one
/// id can ever produce a second queue for it.
pub proof fn lemma_get_or_create_once(m: Map<u64, QueueModel>, guild_id: u64)
    ensures
        spec_get_or_create(m, guild_id).contains_key(guild_id),
        spec_get_or_create(spec_get_or_create(m, guild_id), guild_id) == spec_get_or_create(
            m,
            guild_id,
        ),
        reg_get(spec_get_or_create(m, guild_id), guild_id) == reg_get(m, guild_id),
{
}

/// Law (guild isolation): an enqueue decision for one guild is invisible
/// to every other guild, and decisions for two distinct guilds commute —
/// interleaved tasks on different guilds can never move a track from one
/// guild's queue to another's.
pub proof fn lemma_guild_isolation(
    m: Map<u64, QueueModel>,
    g1: u64,
    g2: u64,
    s1: Song,
    s2: Song,
)
    requires
        g1 != g2,
    ensures
        reg_get(spec_reg_enqueue(m, g1, s1), g2) == reg_get(m, g2),
        spec_reg_enqueue(spec_reg_enqueue(m, g1, s1), g2, s2) == spec_reg_enqueue(
            spec_reg_enqueue(m, g2, s2),
            g1,
            s1,
        ),
{
    assert(spec_reg_enqueue(spec_reg_enqueue(m, g1, s1), g2, s2) =~= spec_reg_enqueue(
        spec_reg_enqueue(m, g2, s2),
        g1,
        s1,
    ));
}

/// Law (guild isolation, continued): one guild's end-of-track advance is
/// likewise invisible to every other guild, and commutes both with the
/// other guild's own advance and with its enqueue decisions.
pub proof fn lemma_guild_isolation_shift(m: Map<u64, QueueModel>, g1: u64, g2: u64, s2: Song)
    requires
        g1 != g2,
    ensures
        reg_get(spec_reg_shift(m, g1), g2) == reg_get(m, g2),
        spec_reg_shift(spec_reg_shift(m, g1), g2) == spec_reg_shift(spec_reg_shift(m, g2), g1),
        spec_reg_enqueue(spec_reg_shift(m, g1), g2, s2) == spec_reg_shift(
            spec_reg_enqueue(m, g2, s2),
            g1,
        ),
{
    assert(spec_reg_shift(spec_reg_shift(m, g1), g2) =~= spec_reg_shift(
        spec_reg_shift(m, g2),
        g1,
    ));
    assert(spec_reg_enqueue(spec_reg_shift(m, g1), g2, s2) =~= spec_reg_shift(
        spec_reg_enqueue(m, g2, s2),
        g1,
    ));
}

/// The process-wide map from guild id to that guild's playback queue.
/// Queues are created lazily, on first reference. The map itself is the
/// only process-wide state; the per-guild exclusive guards around each
/// queue are the caller's concern.
pub struct QueueRegistry {
    pub queues: HashMap<u64, GuildQueue>,
}

impl View for QueueRegistry {
    type V = Map<u64, QueueModel>;

    open spec fn view(&self) -> Map<u64, QueueModel> {
        self.queues@.map_values(|q: GuildQueue| q@)
    }
}

impl QueueRegistry {
    /// A registry that knows no guild yet.
    pub fn new() -> (r: QueueRegistry)
        ensures
            r@ == Map::<u64, QueueModel>::empty(),
    {
        let r = QueueRegistry { queues: HashMap::new() };
        proof {
            assert(r@ =~= Map::<u64, QueueModel>::empty());
        }
        r
    }

    /// Make sure the guild has a queue: keep the existing one untouched,
    /// or create a fresh idle one for an id seen for the first time.
    pub fn get_or_create(&mut self, guild_id: u64)
        ensures
            final(self)@ == spec_get_or_create(old(self)@, guild_id),
            final(self)@.contains_key(guild_id),
            old(self)@.contains_key(guild_id) ==> final(self)@ == old(self)@,
    {
        if !self.queues.contains_key(&guild_id) {
            self.queues.insert(guild_id, GuildQueue::new());
            proof {
                assert(final(self)@ =~= spec_get_or_create(old(self)@, guild_id));
            }
        }
    }

    /// Borrow the guild's queue for reading, if it exists.
    pub fn get(&self, guild_id: u64) -> (r: Option<&GuildQueue>)
        ensures
            (match r {
                Some(q) => self@.contains_key(guild_id) && q@ == self@[guild_id],
                None => !self@.contains_key(guild_id),
            }),
    {
        self.queues.get(&guild_id)
    }

    /// One guild's atomic enqueue-or-start decision, creating the queue on
    /// the way if the guild was never seen. Every other guild's queue is
    /// left exactly as it was.
    pub fn enqueue_or_start(&mut self, guild_id: u64, s: Song) -> (r: EnqueueOutcome)
        requires
            reg_get(old(self)@, guild_id).now_playing is Some ==> reg_get(
                old(self)@,
                guild_id,
            ).pending.len() < usize::MAX,
        ensures
            final(self)@ == spec_reg_enqueue(old(self)@, guild_id, s),
            reg_get(old(self)@, guild_id).now_playing is None ==> r
                == EnqueueOutcome::StartedImmediately,
            reg_get(old(self)@, guild_id).now_playing is Some ==> r == (EnqueueOutcome::Enqueued {
                position: spec_enqueue_position(reg_get(old(self)@, guild_id)) as usize,
            }),
            forall|g: u64|
                g != guild_id ==> (final(self)@.contains_key(g) <==> old(self)@.contains_key(g)),
            forall|g: u64|
                g != guild_id && old(self)@.contains_key(g) ==> final(self)@[g] == old(self)@[g],
    {
        let mut q = match self.queues.remove(&guild_id) {
            Some(q) => q,
            None => GuildQueue::new(),
        };
        let r = q.enqueue_or_start(s);
        self.queues.insert(guild_id, q);
        proof {
            assert(final(self)@ =~= spec_reg_enqueue(old(self)@, guild_id, s));
        }
        r
    }

    /// Run one guild's queue-advance protocol for a playback event,
    /// creating the queue on the way if the guild was never seen. Every
    /// other guild's queue is left exactly as it was.
    pub fn handle_event(&mut self, guild_id: u64, event: PlaybackEvent) -> (act: PlaybackAction)
        ensures
            final(self)@ == old(self)@.insert(guild_id, reg_get(final(self)@, guild_id)),
            event matches PlaybackEvent::TrackEnded { call_alive: false } ==> reg_get(
                final(self)@,
                guild_id,
            ) == reg_get(old(self)@, guild_id) && act is DoNothing,
            event matches PlaybackEvent::TrackEnded { call_alive: true } ==> {
                &&& final(self)@ == spec_reg_shift(old(self)@, guild_id)
                &&& reg_get(final(self)@, guild_id) == spec_shift(reg_get(old(self)@, guild_id))
                &&& (match spec_shift(reg_get(old(self)@, guild_id)).now_playing {
                    Some(s) => act matches PlaybackAction::StartTrack { source } && source@
                        == s@.source,
                    None => act is DoNothing,
                })
            },
            event matches PlaybackEvent::StartSucceeded { session } ==> {
                &&& reg_get(final(self)@, guild_id).pending == reg_get(
                    old(self)@,
                    guild_id,
                ).pending
                &&& (match reg_get(old(self)@, guild_id).now_playing {
                    Some(s) => if s.playback is Pending {
                        reg_get(final(self)@, guild_id).now_playing == Some(
                            Song { playback: PlaybackState::Playing { session }, ..s },
                        )
                    } else {
                        reg_get(final(self)@, guild_id) == reg_get(old(self)@, guild_id)
                    },
                    None => reg_get(final(self)@, guild_id) == reg_get(old(self)@, guild_id),
                })
                &&& act is DoNothing
            },
            event is StartFailed ==> reg_get(final(self)@, guild_id) == reg_get(
                old(self)@,
                guild_id,
            ) && act is ReportError,
            forall|g: u64|
                g != guild_id ==> (final(self)@.contains_key(g) <==> old(self)@.contains_key(g)),
            forall|g: u64|
                g != guild_id && old(self)@.contains_key(g) ==> final(self)@[g] == old(self)@[g],
    {
        let mut q = match self.queues.remove(&guild_id) {
            Some(q) => q,
            None => GuildQueue::new(),
        };
        let act = handle_playback_event(&mut q, event);
        self.queues.insert(guild_id, q);
        proof {
            assert(final(self)@ =~= old(self)@.insert(guild_id, reg_get(final(self)@, guild_id)));
        }
        act
    }
}

} // verus!
