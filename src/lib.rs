//! Playback-queue and session-coordination core of a voice-channel music bot.

mod cache;
mod cetus;
mod controls;
mod errors;
mod estimate;
mod pager;
mod play;
mod queue;
mod settings;
mod text;

pub use cache::{
    autopause_of, clamped_message, forget_queue_message, forget_skip_votes,
    lemma_vote_after_track_end, skip_threshold, update_queue_messages, votes_of, voteskip,
    without_message, GuildCache, ModifyQueueHandler, QueueMessage, QueueRender, TrackEndActions,
    TrackEndHandler, VoteOutcome, QUEUE_PAGE_SIZE,
};
pub use cetus::{
    api_for, chunk_size, create_groups, create_team_response, cycle_step, group_spec, groups_of,
    team_reply_for, Api, Cetus,
    CycleAction, EidolonTable, TeamReply, FIVE_TO_DAY, TEN_TO_NIGHT,
};
pub use controls::{
    engine_outcome, loop_toggle, parse_timestamp, repeat_outcome, seek_seconds, seek_target,
    seek_target_spec, LoopAction,
};
pub use errors::{ParrotError, RangeField};
pub use estimate::{
    between, estimate_wait, has_live, remaining_ms, saturate, total_ms, wait_ms,
    UNBOUNDED_WAIT_MS,
};
pub use pager::{
    clamp_page, clamp_stored_page, lemma_render_stable, num_pages, page_count, page_model,
    render_page, PageModel, QueuePage,
};
pub use play::{
    any_domain_matches, classify_parsed, classify_post, classify_query, host_refused, host_view,
    listed, mode_named, placement_error, placement_result, play_reply, play_reply_spec,
    refuses_search, search_refused, url_host, whole_playlist, Mode, Placement, PlayReply,
    QueryDecision, QueryType, PLAYLIST_MARK, SPOTIFY_HOST,
};
pub use queue::{
    insert_result, lemma_insert_out_of_range, lemma_insert_places_track, lemma_rotate_bijection,
    lemma_rotate_round_trip,
    reports, rotate_pending, rotate_result, rotated_right, rotation_source, rotation_target,
    skip_result, Queue, Track,
};
pub use settings::{GuildSettings, DEFAULT_ALLOWED_DOMAIN};
pub use text::{
    all_digits, contains, digits_value, ends_with, find_colon, is_digit, next_colon, occurs_at,
    parse_u64, parse_u64_range, str_contains, str_ends_with, str_eq, unsigned_part,
};
