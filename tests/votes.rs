use std::collections::{HashMap, HashSet};

use parrot::{
    forget_skip_votes, voteskip, GuildCache, GuildSettings, ParrotError, Queue, Track,
    TrackEndHandler, VoteOutcome,
};

fn queue_of(n: u64) -> Queue {
    let mut q = Queue::new();
    for i in 0..n {
        q.append(Track { id: i, duration_ms: Some(1000) });
    }
    q
}

#[test]
fn vote_short_of_threshold_reports_one_missing() {
    // six occupants: threshold three
    let mut q = queue_of(3);
    let mut votes: HashSet<u64> = HashSet::new();
    assert_eq!(voteskip(&mut q, &mut votes, 10, 6), Ok(VoteOutcome::Missing(2)));
    assert_eq!(voteskip(&mut q, &mut votes, 11, 6), Ok(VoteOutcome::Missing(1)));
    assert_eq!(q.len(), 3);
    assert_eq!(voteskip(&mut q, &mut votes, 12, 6), Ok(VoteOutcome::Skipped));
    assert_eq!(q.len(), 2);
    assert_eq!(q.current().unwrap().id, 1);
    assert!(votes.is_empty());
}

#[test]
fn duplicate_vote_counts_once() {
    let mut q = queue_of(2);
    let mut votes: HashSet<u64> = HashSet::new();
    assert_eq!(voteskip(&mut q, &mut votes, 7, 7), Ok(VoteOutcome::Missing(2)));
    assert_eq!(voteskip(&mut q, &mut votes, 7, 7), Ok(VoteOutcome::Missing(2)));
    assert_eq!(votes.len(), 1);
}

#[test]
fn vote_on_empty_queue_fails() {
    let mut q = Queue::new();
    let mut votes: HashSet<u64> = HashSet::new();
    assert_eq!(voteskip(&mut q, &mut votes, 1, 4), Err(ParrotError::NothingPlaying));
    assert!(votes.is_empty());
}

#[test]
fn lone_listener_skips_at_once() {
    let mut q = queue_of(1);
    let mut votes: HashSet<u64> = HashSet::new();
    assert_eq!(voteskip(&mut q, &mut votes, 1, 1), Ok(VoteOutcome::Skipped));
    assert!(q.is_empty());
}

#[test]
fn track_end_resets_votes() {
    let mut caches: HashMap<u64, GuildCache> = HashMap::new();
    let mut cache = GuildCache::new();
    cache.current_skip_votes.insert(1);
    cache.current_skip_votes.insert(2);
    caches.insert(5, cache);
    let mut settings: HashMap<u64, GuildSettings> = HashMap::new();
    let mut s = GuildSettings::new(5);
    s.toggle_autopause();
    settings.insert(5, s);

    let actions = TrackEndHandler { guild_id: 5 }.act(&settings, &mut caches, &[]);
    assert!(actions.pause);
    assert!(caches[&5].current_skip_votes.is_empty());

    let mut q = queue_of(2);
    let votes = &mut caches.get_mut(&5).unwrap().current_skip_votes;
    assert_eq!(voteskip(&mut q, votes, 3, 8), Ok(VoteOutcome::Missing(3)));
    assert_eq!(votes.len(), 1);
}

#[test]
fn track_end_without_cache_or_settings() {
    let mut caches: HashMap<u64, GuildCache> = HashMap::new();
    let settings: HashMap<u64, GuildSettings> = HashMap::new();
    let actions = TrackEndHandler { guild_id: 9 }.act(&settings, &mut caches, &[]);
    assert!(!actions.pause);
    assert!(actions.renders.is_empty());
    assert!(caches.is_empty());
    assert_eq!(forget_skip_votes(&mut caches, 9), Err(()));
}

#[test]
fn new_settings_and_autopause_toggle() {
    let mut s = GuildSettings::new(3);
    assert_eq!(s.guild_id, 3);
    assert!(!s.autopause);
    assert_eq!(s.allowed_domains, vec!["youtube.com".to_string()]);
    assert!(s.banned_domains.is_empty());
    s.toggle_autopause();
    assert!(s.autopause);
    s.toggle_autopause();
    assert!(!s.autopause);
}
