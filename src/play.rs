use vstd::prelude::*;

use crate::errors::{ParrotError, RangeField};
use crate::queue::{insert_result, reports, rotate_pending, skip_result, Queue, Track};
use crate::settings::{GuildSettings, DEFAULT_ALLOWED_DOMAIN};
use crate::text::{contains, ends_with, str_contains, str_ends_with, str_eq};

verus! {

/// Where and how a `play` request places what it resolves.
#[derive(Clone, Copy, Debug, PartialEq, Eq, Structural)]
pub enum Mode {
    End,
    Next,
    All,
    Reverse,
    Shuffle,
    Jump,
}

/// The mode that a `play` sub-command name selects (`End` for any other).
pub open spec fn mode_named(name: Seq<char>) -> Mode {
    if name == "next"@ {
        Mode::Next
    } else if name == "all"@ {
        Mode::All
    } else if name == "reverse"@ {
        Mode::Reverse
    } else if name == "shuffle"@ {
        Mode::Shuffle
    } else if name == "jump"@ {
        Mode::Jump
    } else {
        Mode::End
    }
}

impl Mode {
    /// The mode that the sub-command `name` selects.
    pub fn from_option_name(name: &str) -> (r: Mode)
        ensures
            r == mode_named(name@),
    {
        if str_eq(name, "next") {
            Mode::Next
        } else if str_eq(name, "all") {
            Mode::All
        } else if str_eq(name, "reverse") {
            Mode::Reverse
        } else if str_eq(name, "shuffle") {
            Mode::Shuffle
        } else if str_eq(name, "jump") {
            Mode::Jump
        } else {
            Mode::End
        }
    }
}

/// What a `play` request asks for.
#[derive(Clone, Debug)]
pub enum QueryType {
    Keywords(String),
    KeywordList(Vec<String>),
    VideoLink(String),
    PlaylistLink(String),
}

impl QueryType {
    /// Whether the request names several tracks.
    pub open spec fn spec_is_list(&self) -> bool {
        self is KeywordList || self is PlaylistLink
    }

    pub fn is_list(&self) -> (r: bool)
        ensures
            r == self.spec_is_list(),
    {
        match self {
            QueryType::KeywordList(_) | QueryType::PlaylistLink(_) => true,
            _ => false,
        }
    }
}

/// The host part of `s` read as a URL: `None` when `s` is no URL at all,
/// `Some(None)` for a URL without a host.
pub uninterp spec fn url_host(s: Seq<char>) -> Option<Option<Seq<char>>>;

/// The view of a parsed host.
pub open spec fn host_view(h: Option<Option<String>>) -> Option<Option<Seq<char>>> {
    match h {
        None => None,
        Some(None) => Some(None),
        Some(Some(s)) => Some(Some(s@)),
    }
}

/// Relies on `url::Url::parse` to read `s` as an absolute URL, and on
/// `Url::host_str` for its host; the result depends on `s` alone.
#[verifier::external_body]
fn parse_url_host(s: &str) -> (r: Option<Option<String>>)
    ensures
        host_view(r) == url_host(s@),
{
    match url::Url::parse(s) {
        Ok(u) => Some(u.host_str().map(|h| h.to_string())),
        Err(_) => None,
    }
}

/// Whether some entry of `list` ends `host` (or is all of it).
pub open spec fn any_domain_matches(list: Seq<String>, host: Seq<char>) -> bool {
    exists|i: int| 0 <= i < list.len() && ends_with(host, (#[trigger] list[i])@)
}

/// Whether `list` holds exactly `d`.
pub open spec fn listed(list: Seq<String>, d: Seq<char>) -> bool {
    exists|i: int| 0 <= i < list.len() && (#[trigger] list[i])@ == d
}

/// Whether a guild refuses to play from `host`: a banned entry matches it,
/// or nothing is banned and no allowed entry matches it.
pub open spec fn host_refused(allowed: Seq<String>, banned: Seq<String>, host: Seq<char>) -> bool {
    any_domain_matches(banned, host) || (banned.len() == 0 && !any_domain_matches(allowed, host))
}

/// Whether a guild refuses keyword searches, which go to the default
/// domain: it is banned by name, or nothing is banned and it is not
/// allowed by name.
pub open spec fn search_refused(allowed: Seq<String>, banned: Seq<String>) -> bool {
    listed(banned, DEFAULT_ALLOWED_DOMAIN@) || (banned.len() == 0 && !listed(
        allowed,
        DEFAULT_ALLOWED_DOMAIN@,
    ))
}

/// The host of the music service whose links are resolved by its own source.
pub const SPOTIFY_HOST: &'static str = "open.spotify.com";

/// The mark of a link to a playlist.
pub const PLAYLIST_MARK: &'static str = "list=";

/// How a `play` query is to be served.
#[derive(Debug)]
pub enum QueryDecision {
    /// Resolve it as this request.
    Play(QueryType),
    /// A link of the music service with its own source.
    Spotify,
    /// The guild does not play from this domain.
    DomainBanned(String),
    /// A URL without a host.
    Invalid,
}

fn domain_listed_match(list: &Vec<String>, host: &str) -> (r: bool)
    ensures
        r == any_domain_matches(list@, host@),
{
    let mut i: usize = 0;
    while i < list.len()
        invariant
            i <= list@.len(),
            forall|j: int| 0 <= j < i ==> !ends_with(host@, (#[trigger] list@[j])@),
        decreases list@.len() - i,
    {
        if str_ends_with(host, list[i].as_str()) {
            return true;
        }
        i += 1;
    }
    false
}

fn domain_listed(list: &Vec<String>, d: &str) -> (r: bool)
    ensures
        r == listed(list@, d@),
{
    let mut i: usize = 0;
    while i < list.len()
        invariant
            i <= list@.len(),
            forall|j: int| 0 <= j < i ==> (#[trigger] list@[j])@ != d@,
        decreases list@.len() - i,
    {
        if str_eq(list[i].as_str(), d) {
            return true;
        }
        i += 1;
    }
    false
}

/// Decides how to serve `query`, given `host`, what reading it as a URL
/// gave (see `url_host`), and the guild's domain lists.
pub fn classify_parsed(query: &str, host: Option<Option<String>>, settings: &GuildSettings) -> (r:
    QueryDecision)
    ensures
        classify_post(query@, host_view(host), settings, r),
{
    match host {
        None => {
            let banned = domain_listed(&settings.banned_domains, DEFAULT_ALLOWED_DOMAIN);
            let allowed = domain_listed(&settings.allowed_domains, DEFAULT_ALLOWED_DOMAIN);
            if banned || (settings.banned_domains.len() == 0 && !allowed) {
                QueryDecision::DomainBanned(DEFAULT_ALLOWED_DOMAIN.to_owned())
            } else {
                QueryDecision::Play(QueryType::Keywords(query.to_owned()))
            }
        },
        Some(None) => QueryDecision::Invalid,
        Some(Some(h)) => {
            if str_eq(h.as_str(), SPOTIFY_HOST) {
                return QueryDecision::Spotify;
            }
            let banned = domain_listed_match(&settings.banned_domains, h.as_str());
            let allowed = domain_listed_match(&settings.allowed_domains, h.as_str());
            if banned || (settings.banned_domains.len() == 0 && !allowed) {
                QueryDecision::DomainBanned(h)
            } else if str_contains(query, PLAYLIST_MARK) {
                QueryDecision::Play(QueryType::PlaylistLink(query.to_owned()))
            } else {
                QueryDecision::Play(QueryType::VideoLink(query.to_owned()))
            }
        },
    }
}

/// Decides how to serve `query` for a guild with `settings`: as a URL when
/// it reads as one, else as a keyword search.
pub fn classify_query(query: &str, settings: &GuildSettings) -> (r: QueryDecision)
    ensures
        classify_post(query@, url_host(query@), settings, r),
{
    let host = parse_url_host(query);
    classify_parsed(query, host, settings)
}

/// How `query` is served, given `host`, what reading it as a URL gave.
pub open spec fn classify_post(
    query: Seq<char>,
    host: Option<Option<Seq<char>>>,
    settings: &GuildSettings,
    r: QueryDecision,
) -> bool {
    &&& host is None ==> if search_refused(settings.allowed_domains@, settings.banned_domains@) {
        r matches QueryDecision::DomainBanned(d) && d@ == DEFAULT_ALLOWED_DOMAIN@
    } else {
        r matches QueryDecision::Play(QueryType::Keywords(k)) && k@ == query
    }
    &&& host == Some(None::<Seq<char>>) ==> r is Invalid
    &&& host matches Some(Some(h)) ==> if h == SPOTIFY_HOST@ {
        r is Spotify
    } else if host_refused(settings.allowed_domains@, settings.banned_domains@, h) {
        r matches QueryDecision::DomainBanned(d) && d@ == h
    } else if contains(query, PLAYLIST_MARK@) {
        r matches QueryDecision::Play(QueryType::PlaylistLink(u)) && u@ == query
    } else {
        r matches QueryDecision::Play(QueryType::VideoLink(u)) && u@ == query
    }
}

/// Places the tracks of one `play` request as they resolve, one by one.
pub struct Placement {
    pub mode: Mode,
    /// The request names several tracks.
    pub list: bool,
    /// The request is a single keyword search.
    pub keyword_search: bool,
    /// The queue was empty when the request came in.
    pub queue_was_empty: bool,
    /// Where the next track of a `Jump` list goes.
    pub insert_idx: usize,
}

/// Whether `mode` queues a whole playlist (in order, reversed or shuffled).
pub open spec fn whole_playlist(mode: Mode) -> bool {
    mode == Mode::All || mode == Mode::Reverse || mode == Mode::Shuffle
}

/// Whether `p` is a keyword search in a whole-playlist mode, which has no
/// playlist to queue and is refused.
pub open spec fn refuses_search(p: Placement) -> bool {
    whole_playlist(p.mode) && p.keyword_search
}

/// The error that placing item `item` of `p`'s request into `q` fails
/// with, whatever track it resolves to; `None` when it cannot fail.
pub open spec fn placement_error(p: Placement, q: Seq<Track>, item: nat) -> Option<ParrotError> {
    let index: int = if p.mode == Mode::Next {
        item + 1 as int
    } else {
        p.insert_idx as int
    };
    if refuses_search(p) {
        Some(ParrotError::PlayAllFailed)
    } else if (p.mode == Mode::Next || (p.mode == Mode::Jump && p.list)) && q.len() > 1 && !(1
        <= index <= q.len()) {
        Some(
            ParrotError::OutOfRange {
                field: RangeField::Index,
                value: index as u64,
                min: 1,
                max: q.len() as u64,
            },
        )
    } else {
        None
    }
}

/// What placing `t`, item `item` of its request, makes of `q`, and where
/// the next item of a `Jump` list goes afterwards.
pub open spec fn placement_result(
    p: Placement,
    q: Seq<Track>,
    t: Track,
    item: nat,
) -> (Result<Seq<Track>, ParrotError>, usize) {
    if refuses_search(p) {
        (Err(ParrotError::PlayAllFailed), p.insert_idx)
    } else {
        match p.mode {
            Mode::Next => (insert_result(q, t, item + 1 as int), p.insert_idx),
            Mode::Jump => if !p.list {
                let placed = q.push(t);
                if p.queue_was_empty {
                    (Ok(placed), p.insert_idx)
                } else {
                    let turned = if placed.len() >= 3 {
                        rotate_pending(placed, 1)
                    } else {
                        placed
                    };
                    (skip_result(turned), p.insert_idx)
                }
            } else {
                match insert_result(q, t, p.insert_idx as int) {
                    Err(e) => (Err(e), p.insert_idx),
                    Ok(placed) => if item == 0 && !p.queue_was_empty {
                        (skip_result(placed), p.insert_idx)
                    } else {
                        (
                            Ok(placed),
                            if p.insert_idx < usize::MAX {
                                (p.insert_idx + 1) as usize
                            } else {
                                p.insert_idx
                            },
                        )
                    },
                }
            },
            _ => (Ok(q.push(t)), p.insert_idx),
        }
    }
}

impl Placement {
    /// A placement for `query` in `mode`, `queue_was_empty` when nothing
    /// was playing as it came in. A whole-playlist mode refuses a keyword
    /// search with `PlayAllFailed`.
    pub fn new(mode: Mode, query: &QueryType, queue_was_empty: bool) -> (r: Result<
        Placement,
        ParrotError,
    >)
        ensures
            (mode == Mode::All || mode == Mode::Reverse || mode == Mode::Shuffle)
                && query is Keywords ==> r == Err::<Placement, ParrotError>(
                ParrotError::PlayAllFailed,
            ),
            !((mode == Mode::All || mode == Mode::Reverse || mode == Mode::Shuffle)
                && query is Keywords) ==> r == Ok::<Placement, ParrotError>(
                Placement {
                    mode,
                    list: query.spec_is_list(),
                    keyword_search: query is Keywords,
                    queue_was_empty,
                    insert_idx: 1,
                },
            ),
    {
        let keyword_search = match query {
            QueryType::Keywords(_) => true,
            _ => false,
        };
        let whole = match mode {
            Mode::All | Mode::Reverse | Mode::Shuffle => true,
            _ => false,
        };
        if whole && keyword_search {
            return Err(ParrotError::PlayAllFailed);
        }
        Ok(Placement { mode, list: query.is_list(), keyword_search, queue_was_empty, insert_idx: 1 })
    }

    /// Whether placing item `item` into `queue` would fail, told before the
    /// item is resolved: the error it would fail with, for any track.
    pub fn precheck(&self, queue: &Queue, item: usize) -> (r: Result<(), ParrotError>)
        requires
            item < usize::MAX,
        ensures
            r == (match placement_error(*self, queue@, item as nat) {
                Some(e) => Err::<(), ParrotError>(e),
                None => Ok::<(), ParrotError>(()),
            }),
            forall|t: Track|
                match placement_error(*self, queue@, item as nat) {
                    Some(e) => #[trigger] placement_result(*self, queue@, t, item as nat).0
                        == Err::<Seq<Track>, ParrotError>(e),
                    None => placement_result(*self, queue@, t, item as nat).0 is Ok,
                },
    {
        let whole = match self.mode {
            Mode::All | Mode::Reverse | Mode::Shuffle => true,
            _ => false,
        };
        if whole && self.keyword_search {
            return Err(ParrotError::PlayAllFailed);
        }
        let positional = match self.mode {
            Mode::Next => true,
            Mode::Jump => self.list,
            _ => false,
        };
        let index = match self.mode {
            Mode::Next => item + 1,
            _ => self.insert_idx,
        };
        let len = queue.len();
        if positional && len > 1 && (index == 0 || index > len) {
            return Err(
                ParrotError::OutOfRange {
                    field: RangeField::Index,
                    value: index as u64,
                    min: 1,
                    max: len as u64,
                },
            );
        }
        Ok(())
    }

    /// Whether a request goes on with its next item after this one failed
    /// with `e`: only a list skips an item that could not be resolved; any
    /// other failure ends the request.
    pub fn continues_after(&self, e: &ParrotError) -> (r: bool)
        ensures
            r == (self.list && *e == ParrotError::ResolutionFailed),
    {
        self.list && match e {
            ParrotError::ResolutionFailed => true,
            _ => false,
        }
    }

    /// Places `t`, item number `item` of the request (counting items that
    /// failed to resolve too), and returns the queue afterwards. `End` and
    /// the whole-playlist modes append. `Next` puts item `i` at `i + 1`.
    /// `Jump` makes a single track current at once; for a list, the first
    /// item replaces the current track and the rest follow it in order.
    pub fn place(&mut self, queue: &mut Queue, t: Track, item: usize) -> (r: Result<
        Vec<Track>,
        ParrotError,
    >)
        requires
            item < usize::MAX,
        ensures
            reports(
                r,
                placement_result(*old(self), old(queue)@, t, item as nat).0,
                old(queue)@,
                final(queue)@,
            ),
            final(self).insert_idx == placement_result(*old(self), old(queue)@, t, item as nat).1,
            final(self).mode == old(self).mode,
            final(self).list == old(self).list,
            final(self).queue_was_empty == old(self).queue_was_empty,
            final(self).keyword_search == old(self).keyword_search,
    {
        let whole = match self.mode {
            Mode::All | Mode::Reverse | Mode::Shuffle => true,
            _ => false,
        };
        if whole && self.keyword_search {
            return Err(ParrotError::PlayAllFailed);
        }
        match self.mode {
            Mode::Next => queue.insert_at(t, item + 1),
            Mode::Jump => {
                if !self.list {
                    let placed = queue.append(t);
                    if self.queue_was_empty {
                        return Ok(placed);
                    }
                    let _ = queue.rotate(1);
                    queue.force_skip_top()
                } else {
                    let placed = queue.insert_at(t, self.insert_idx);
                    match placed {
                        Err(e) => Err(e),
                        Ok(s) => {
                            if item == 0 && !self.queue_was_empty {
                                queue.force_skip_top()
                            } else {
                                if self.insert_idx < usize::MAX {
                                    self.insert_idx = self.insert_idx + 1;
                                }
                                Ok(s)
                            }
                        },
                    }
                }
            },
            _ => Ok(queue.append(t)),
        }
    }
}

/// How a `play` request answers once its tracks are placed.
#[derive(Clone, Copy, Debug, PartialEq, Eq, Structural)]
pub enum PlayReply {
    /// The track now playing (it was the only one).
    NowPlaying(Track),
    /// A single track was queued to play next.
    QueuedNext(Track),
    /// A single track was queued at the back.
    QueuedLast(Track),
    /// Several tracks were queued.
    PlaylistQueued,
    /// Nothing to add to the search notice.
    Silent,
    /// The queue is empty: nothing was placed.
    NothingQueued,
}

/// The reply to a request in `mode` that named several tracks (`list`) or
/// one, with the queue `q` as it stands afterwards.
pub open spec fn play_reply_spec(list: bool, mode: Mode, q: Seq<Track>) -> PlayReply {
    if q.len() == 0 {
        PlayReply::NothingQueued
    } else if q.len() == 1 {
        PlayReply::NowPlaying(q[0])
    } else if list {
        PlayReply::PlaylistQueued
    } else if mode == Mode::Next {
        PlayReply::QueuedNext(q[1])
    } else if mode == Mode::End {
        PlayReply::QueuedLast(q.last())
    } else {
        PlayReply::Silent
    }
}

/// Chooses the reply to a `play` request (see `play_reply_spec`).
pub fn play_reply(query: &QueryType, mode: Mode, queue: &[Track]) -> (r: PlayReply)
    ensures
        r == play_reply_spec(query.spec_is_list(), mode, queue@),
{
    let n = queue.len();
    if n == 0 {
        PlayReply::NothingQueued
    } else if n == 1 {
        PlayReply::NowPlaying(queue[0])
    } else if query.is_list() {
        PlayReply::PlaylistQueued
    } else if mode == Mode::Next {
        PlayReply::QueuedNext(queue[1])
    } else if mode == Mode::End {
        PlayReply::QueuedLast(queue[n - 1])
    } else {
        PlayReply::Silent
    }
}

} // verus!
