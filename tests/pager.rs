use std::collections::HashMap;

use parrot::{
    forget_queue_message, num_pages, render_page, update_queue_messages, GuildCache,
    ModifyQueueHandler, QueueMessage, Track, QUEUE_PAGE_SIZE,
};

fn tracks(n: u64) -> Vec<Track> {
    (0..n).map(|i| Track { id: i, duration_ms: Some(1000) }).collect()
}

#[test]
fn page_count_rounds_up_with_one_minimum() {
    assert_eq!(num_pages(0, 6), 1);
    assert_eq!(num_pages(1, 6), 1);
    assert_eq!(num_pages(6, 6), 1);
    assert_eq!(num_pages(7, 6), 2);
    assert_eq!(num_pages(13, 6), 3);
    assert_eq!(num_pages(usize::MAX, 1), usize::MAX);
}

#[test]
fn render_clamps_and_slices() {
    let t = tracks(8);
    let p = render_page(&t, 5, 3);
    assert_eq!(p.page, 2);
    assert_eq!(p.page_count, 3);
    assert_eq!(p.tracks.iter().map(|t| t.id).collect::<Vec<_>>(), vec![6, 7]);
    assert!(p.has_prev);
    assert!(!p.has_next);
    let first = render_page(&t, 0, 3);
    assert_eq!(first.tracks.len(), 3);
    assert!(!first.has_prev && first.has_next);
    let empty = render_page(&[], 4, 3);
    assert_eq!((empty.page, empty.page_count, empty.tracks.len()), (0, 1, 0));
}

#[test]
fn render_twice_is_identical() {
    let t = tracks(10);
    let a = render_page(&t, 1, 4);
    let b = render_page(&t, 1, 4);
    assert_eq!((a.page, a.page_count, a.has_prev, a.has_next), (b.page, b.page_count, b.has_prev, b.has_next));
    assert_eq!(a.tracks, b.tracks);
}

#[test]
fn resync_clamps_stored_pages_and_prunes() {
    let mut caches: HashMap<u64, GuildCache> = HashMap::new();
    let mut cache = GuildCache::new();
    cache.queue_messages.push(QueueMessage { message_id: 100, page: 0 });
    cache.queue_messages.push(QueueMessage { message_id: 200, page: 3 });
    caches.insert(1, cache);
    let t = tracks(QUEUE_PAGE_SIZE as u64 + 1);

    let renders = update_queue_messages(&mut caches, &t, 1);
    assert_eq!(renders.len(), 2);
    assert_eq!(renders[1].message_id, 200);
    assert_eq!(renders[1].view.page, 1);
    assert_eq!(caches[&1].queue_messages[1], QueueMessage { message_id: 200, page: 1 });

    let again = ModifyQueueHandler { guild_id: 1 }.act(&mut caches, &t);
    assert_eq!(again[1].view.page, renders[1].view.page);
    assert_eq!(again[1].view.tracks, renders[1].view.tracks);

    assert_eq!(forget_queue_message(&mut caches, 100, 1), Ok(()));
    assert_eq!(caches[&1].queue_messages, vec![QueueMessage { message_id: 200, page: 1 }]);
    assert_eq!(forget_queue_message(&mut caches, 100, 2), Err(()));
    assert!(update_queue_messages(&mut caches, &t, 2).is_empty());
}
