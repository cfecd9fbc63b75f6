use std::collections::{HashMap, HashSet};
use vstd::prelude::*;

use crate::errors::ParrotError;
use crate::pager::{clamp_page, page_model, render_page, QueuePage};
use crate::queue::{Queue, Track};
use crate::settings::GuildSettings;

verus! {

broadcast use vstd::std_specs::hash::group_hash_axioms;

/// How many tracks one page of a queue display lists.
pub const QUEUE_PAGE_SIZE: usize = 6;

/// An open queue display: the message that shows it and the page it is on.
#[derive(Clone, Copy, Debug, PartialEq, Eq, Structural)]
pub struct QueueMessage {
    pub message_id: u64,
    pub page: usize,
}

/// Per-guild ephemeral state: who voted to skip the current track, and the
/// queue displays that are kept in step with the queue.
pub struct GuildCache {
    pub current_skip_votes: HashSet<u64>,
    pub queue_messages: Vec<QueueMessage>,
}

impl GuildCache {
    pub fn new() -> (r: GuildCache)
        ensures
            r.current_skip_votes@ == Set::<u64>::empty(),
            r.queue_messages@ == Seq::<QueueMessage>::empty(),
    {
        GuildCache { current_skip_votes: HashSet::new(), queue_messages: Vec::new() }
    }
}

/// The skip votes recorded for `guild` (none when it has no cache yet).
pub open spec fn votes_of(caches: Map<u64, GuildCache>, guild: u64) -> Set<u64> {
    if caches.contains_key(guild) {
        caches[guild].current_skip_votes@
    } else {
        Set::empty()
    }
}

/// The number of distinct voters that forces a skip when `occupants` users
/// share the bot's voice channel.
pub open spec fn skip_threshold(occupants: nat) -> nat {
    occupants / 2
}

/// What a skip vote came to.
#[derive(Clone, Copy, Debug, PartialEq, Eq, Structural)]
pub enum VoteOutcome {
    /// The threshold was met: the current track was skipped and the votes
    /// cleared.
    Skipped,
    /// This many more distinct votes are needed.
    Missing(usize),
}

/// Records `user`'s vote to skip the current track, with `occupants` users
/// in the bot's voice channel now. When the distinct voters reach half the
/// occupants (rounded down) the current track is skipped and the votes are
/// cleared; otherwise the shortfall is reported.
pub fn voteskip(queue: &mut Queue, votes: &mut HashSet<u64>, user: u64, occupants: usize) -> (r:
    Result<VoteOutcome, ParrotError>)
    ensures
        old(queue)@.len() == 0 ==> r == Err::<VoteOutcome, ParrotError>(
            ParrotError::NothingPlaying,
        ) && final(queue)@ == old(queue)@ && final(votes)@ == old(votes)@,
        old(queue)@.len() > 0 && old(votes)@.insert(user).len() >= skip_threshold(
            occupants as nat,
        ) ==> r == Ok::<VoteOutcome, ParrotError>(VoteOutcome::Skipped) && final(queue)@ == old(
            queue,
        )@.skip(1) && final(votes)@ == Set::<u64>::empty(),
        old(queue)@.len() > 0 && old(votes)@.insert(user).len() < skip_threshold(
            occupants as nat,
        ) ==> r == Ok::<VoteOutcome, ParrotError>(
            VoteOutcome::Missing(
                (skip_threshold(occupants as nat) - old(votes)@.insert(user).len()) as usize,
            ),
        ) && final(queue)@ == old(queue)@ && final(votes)@ == old(votes)@.insert(user),
{
    if queue.is_empty() {
        return Err(ParrotError::NothingPlaying);
    }
    votes.insert(user);
    let threshold = occupants / 2;
    let count = votes.len();
    if count >= threshold {
        let _ = queue.force_skip_top();
        *votes = HashSet::new();
        Ok(VoteOutcome::Skipped)
    } else {
        Ok(VoteOutcome::Missing(threshold - count))
    }
}

/// Clears the skip votes of `guild_id`; `Err` when it has no cache entry.
pub fn forget_skip_votes(caches: &mut HashMap<u64, GuildCache>, guild_id: u64) -> (r: Result<
    (),
    (),
>)
    ensures
        r is Ok <==> old(caches)@.contains_key(guild_id),
        final(caches)@.dom() == old(caches)@.dom(),
        forall|g: u64| g != guild_id ==> votes_of(final(caches)@, g) == votes_of(old(caches)@, g),
        forall|g: u64|
            g != guild_id && #[trigger] old(caches)@.contains_key(g) ==> final(caches)@[g] == old(
                caches,
            )@[g],
        votes_of(final(caches)@, guild_id) == Set::<u64>::empty(),
        old(caches)@.contains_key(guild_id) ==> final(caches)@[guild_id].queue_messages@ == old(
            caches,
        )@[guild_id].queue_messages@,
{
    match caches.remove(&guild_id) {
        None => Err(()),
        Some(cache) => {
            let cleared = GuildCache {
                current_skip_votes: HashSet::new(),
                queue_messages: cache.queue_messages,
            };
            caches.insert(guild_id, cleared);
            assert(caches@.dom() =~= old(caches)@.dom());
            Ok(())
        },
    }
}

/// The page view to show on one open queue display.
pub struct QueueRender {
    pub message_id: u64,
    pub view: QueuePage,
}

/// `m` with its stored page clamped to the pages that `len` tracks take.
pub open spec fn clamped_message(m: QueueMessage, len: nat) -> QueueMessage {
    QueueMessage {
        message_id: m.message_id,
        page: clamp_page(m.page as nat, len, QUEUE_PAGE_SIZE as nat) as usize,
    }
}

/// Brings every open queue display of `guild_id` in step with `tracks`:
/// each stored page is clamped to the pages that exist now, and the view
/// for it is returned, in the order the displays were opened. A guild with
/// no cache entry has nothing to update.
pub fn update_queue_messages(caches: &mut HashMap<u64, GuildCache>, tracks: &[Track], guild_id: u64) -> (r:
    Vec<QueueRender>)
    ensures
        !old(caches)@.contains_key(guild_id) ==> r@.len() == 0 && final(caches)@ == old(caches)@,
        final(caches)@.dom() == old(caches)@.dom(),
        forall|g: u64|
            g != guild_id && #[trigger] old(caches)@.contains_key(g) ==> final(caches)@[g] == old(
                caches,
            )@[g],
        old(caches)@.contains_key(guild_id) ==> ({
            let msgs = old(caches)@[guild_id].queue_messages@;
            let after = final(caches)@[guild_id];
            &&& r@.len() == msgs.len()
            &&& after.queue_messages@.len() == msgs.len()
            &&& after.current_skip_votes@ == old(caches)@[guild_id].current_skip_votes@
            &&& forall|i: int|
                0 <= i < msgs.len() ==> (#[trigger] r@[i]).message_id == msgs[i].message_id
                    && r@[i].view@ == page_model(
                    tracks@,
                    msgs[i].page as nat,
                    QUEUE_PAGE_SIZE as nat,
                ) && after.queue_messages@[i] == clamped_message(msgs[i], tracks@.len())
        }),
{
    let cache = match caches.remove(&guild_id) {
        None => return Vec::new(),
        Some(c) => c,
    };
    let ghost msgs = cache.queue_messages@;
    let mut renders: Vec<QueueRender> = Vec::new();
    let mut kept: Vec<QueueMessage> = Vec::new();
    let mut i: usize = 0;
    while i < cache.queue_messages.len()
        invariant
            msgs == cache.queue_messages@,
            i <= msgs.len(),
            renders@.len() == i,
            kept@.len() == i,
            forall|j: int|
                0 <= j < i ==> (#[trigger] renders@[j]).message_id == msgs[j].message_id
                    && renders@[j].view@ == page_model(
                    tracks@,
                    msgs[j].page as nat,
                    QUEUE_PAGE_SIZE as nat,
                ) && kept@[j] == clamped_message(msgs[j], tracks@.len()),
        decreases msgs.len() - i,
    {
        let m = cache.queue_messages[i];
        let view = render_page(tracks, m.page, QUEUE_PAGE_SIZE);
        kept.push(QueueMessage { message_id: m.message_id, page: view.page });
        renders.push(QueueRender { message_id: m.message_id, view });
        i += 1;
    }
    let updated = GuildCache { current_skip_votes: cache.current_skip_votes, queue_messages: kept };
    caches.insert(guild_id, updated);
    assert(caches@.dom() =~= old(caches)@.dom());
    renders
}

/// `s` without the displays shown by message `id`.
pub open spec fn without_message(s: Seq<QueueMessage>, id: u64) -> Seq<QueueMessage>
    decreases s.len(),
{
    if s.len() == 0 {
        s
    } else {
        let rest = without_message(s.drop_last(), id);
        if s.last().message_id == id {
            rest
        } else {
            rest.push(s.last())
        }
    }
}

/// Stops tracking the queue display shown by `message_id` (it could not be
/// re-rendered). `Err` when the guild has no cache entry.
pub fn forget_queue_message(caches: &mut HashMap<u64, GuildCache>, message_id: u64, guild_id: u64) -> (r:
    Result<(), ()>)
    ensures
        r is Ok <==> old(caches)@.contains_key(guild_id),
        final(caches)@.dom() == old(caches)@.dom(),
        forall|g: u64|
            g != guild_id && #[trigger] old(caches)@.contains_key(g) ==> final(caches)@[g] == old(
                caches,
            )@[g],
        old(caches)@.contains_key(guild_id) ==> final(caches)@[guild_id].queue_messages@
            == without_message(old(caches)@[guild_id].queue_messages@, message_id)
            && final(caches)@[guild_id].current_skip_votes@ == old(
            caches,
        )@[guild_id].current_skip_votes@,
{
    let cache = match caches.remove(&guild_id) {
        None => return Err(()),
        Some(c) => c,
    };
    let ghost msgs = cache.queue_messages@;
    let mut kept: Vec<QueueMessage> = Vec::new();
    let mut i: usize = 0;
    while i < cache.queue_messages.len()
        invariant
            msgs == cache.queue_messages@,
            i <= msgs.len(),
            kept@ == without_message(msgs.take(i as int), message_id),
        decreases msgs.len() - i,
    {
        let m = cache.queue_messages[i];
        assert(msgs.take(i + 1).drop_last() =~= msgs.take(i as int));
        if m.message_id != message_id {
            kept.push(m);
        }
        i += 1;
    }
    assert(msgs.take(i as int) =~= msgs);
    let updated = GuildCache { current_skip_votes: cache.current_skip_votes, queue_messages: kept };
    caches.insert(guild_id, updated);
    assert(caches@.dom() =~= old(caches)@.dom());
    Ok(())
}

/// What the audio side must do when a track has finished on its own.
pub struct TrackEndActions {
    /// Pause the queue (the guild has autopause on).
    pub pause: bool,
    /// The views to show on the guild's open queue displays.
    pub renders: Vec<QueueRender>,
}

/// Whether `guild` has autopause switched on (off when it has no settings).
pub open spec fn autopause_of(settings: Map<u64, GuildSettings>, guild: u64) -> bool {
    settings.contains_key(guild) && settings[guild].autopause
}

/// Reacts to the natural end of a track in one guild.
pub struct TrackEndHandler {
    pub guild_id: u64,
}

impl TrackEndHandler {
    /// Each step stands on its own: asks for a pause when the guild has
    /// autopause on, forgets the skip votes (they were cast against the
    /// track that ended), and resyncs the open queue displays with
    /// `tracks`, the queue as it stands now.
    pub fn act(
        &self,
        settings: &HashMap<u64, GuildSettings>,
        caches: &mut HashMap<u64, GuildCache>,
        tracks: &[Track],
    ) -> (r: TrackEndActions)
        ensures
            r.pause == autopause_of(settings@, self.guild_id),
            votes_of(final(caches)@, self.guild_id) == Set::<u64>::empty(),
            final(caches)@.dom() == old(caches)@.dom(),
            forall|g: u64|
                g != self.guild_id && #[trigger] old(caches)@.contains_key(g) ==> final(caches)@[g]
                    == old(caches)@[g],
            !old(caches)@.contains_key(self.guild_id) ==> r.renders@.len() == 0,
            old(caches)@.contains_key(self.guild_id) ==> ({
                let msgs = old(caches)@[self.guild_id].queue_messages@;
                &&& r.renders@.len() == msgs.len()
                &&& final(caches)@[self.guild_id].queue_messages@.len() == msgs.len()
                &&& forall|i: int|
                    0 <= i < msgs.len() ==> (#[trigger] r.renders@[i]).message_id
                        == msgs[i].message_id && r.renders@[i].view@ == page_model(
                        tracks@,
                        msgs[i].page as nat,
                        QUEUE_PAGE_SIZE as nat,
                    ) && final(caches)@[self.guild_id].queue_messages@[i] == clamped_message(
                        msgs[i],
                        tracks@.len(),
                    )
            }),
    {
        let pause = match settings.get(&self.guild_id) {
            Some(s) => s.autopause,
            None => false,
        };
        let _ = forget_skip_votes(caches, self.guild_id);
        let renders = update_queue_messages(caches, tracks, self.guild_id);
        TrackEndActions { pause, renders }
    }
}

/// Resyncs the queue displays of one guild after any change to its queue.
pub struct ModifyQueueHandler {
    pub guild_id: u64,
}

impl ModifyQueueHandler {
    /// The views for the guild's open queue displays over `tracks`, the
    /// queue as it stands after the change; see `update_queue_messages`.
    pub fn act(&self, caches: &mut HashMap<u64, GuildCache>, tracks: &[Track]) -> (r: Vec<
        QueueRender,
    >)
        ensures
            final(caches)@.dom() == old(caches)@.dom(),
            forall|g: u64|
                g != self.guild_id && #[trigger] old(caches)@.contains_key(g) ==> final(caches)@[g]
                    == old(caches)@[g],
            !old(caches)@.contains_key(self.guild_id) ==> r@.len() == 0 && final(caches)@ == old(
                caches,
            )@,
            old(caches)@.contains_key(self.guild_id) ==> ({
                let msgs = old(caches)@[self.guild_id].queue_messages@;
                &&& r@.len() == msgs.len()
                &&& final(caches)@[self.guild_id].current_skip_votes@ == old(
                    caches,
                )@[self.guild_id].current_skip_votes@
                &&& forall|i: int|
                    0 <= i < msgs.len() ==> (#[trigger] r@[i]).message_id == msgs[i].message_id
                        && r@[i].view@ == page_model(
                        tracks@,
                        msgs[i].page as nat,
                        QUEUE_PAGE_SIZE as nat,
                    ) && final(caches)@[self.guild_id].queue_messages@[i] == clamped_message(
                        msgs[i],
                        tracks@.len(),
                    )
            }),
    {
        update_queue_messages(caches, tracks, self.guild_id)
    }
}

/// After a track ends, the next skip vote in that guild counts from zero:
/// in the caches that `TrackEndHandler::act` leaves behind, whatever votes
/// stood before, a vote by `user` leaves exactly one.
pub proof fn lemma_vote_after_track_end(
    after: Map<u64, GuildCache>,
    guild: u64,
    user: u64,
)
    requires
        votes_of(after, guild) == Set::<u64>::empty(),
    ensures
        votes_of(after, guild).insert(user) == set![user],
        votes_of(after, guild).insert(user).len() == 1,
{
    assert(votes_of(after, guild).insert(user) =~= set![user]);
    assert(set![user].len() == 1) by {
        assert(set![user] =~= Set::<u64>::empty().insert(user));
    }
}

} // verus!
