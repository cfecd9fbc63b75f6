use vstd::prelude::*;

use crate::text::str_eq;

verus! {

/// The day/night state of the Plains of Eidolon, as the status service
/// reports it.
pub struct Cetus {
    pub id: String,
    pub expiry: String,
    pub activation: String,
    pub day: bool,
    pub cetus: bool,
    pub state: String,
    pub left: String,
    pub short: String,
}

/// Who signed up for the next eidolon hunt, and where to announce it.
pub struct EidolonTable {
    pub channel: Option<u64>,
    pub leaders: Vec<u64>,
    pub users: Vec<u64>,
}

impl EidolonTable {
    pub fn new() -> (r: EidolonTable)
        ensures
            r.channel is None,
            r.leaders@.len() == 0,
            r.users@.len() == 0,
    {
        EidolonTable { channel: None, leaders: Vec::new(), users: Vec::new() }
    }
}

/// A change in the cycle worth announcing.
#[derive(Clone, Copy, Debug, PartialEq, Eq, Structural)]
pub enum Api {
    /// Day (`true`) or night has just begun.
    Change(bool),
    /// Ten minutes to night.
    Ten,
    /// Five minutes to day.
    Five,
}

/// How many users go with each leader: two when the users split evenly in
/// pairs, three otherwise.
pub open spec fn chunk_size(users: nat) -> nat {
    if users % 2 == 0 {
        2
    } else {
        3
    }
}

/// Hunt group `i`: leader `i` followed by the `i`-th chunk of users.
pub open spec fn group_spec(leaders: Seq<u64>, users: Seq<u64>, i: int) -> Seq<u64> {
    let c = chunk_size(users.len()) as int;
    let lo = i * c;
    let hi = if lo + c <= users.len() {
        lo + c
    } else {
        users.len() as int
    };
    seq![leaders[i]] + users.subrange(lo, hi)
}

/// Whether `g` is the grouping of `leaders` with `users`: group `i` is
/// leader `i` with the `i`-th chunk of users, for as long as both last.
pub open spec fn groups_of(leaders: Seq<u64>, users: Seq<u64>, g: Seq<Vec<u64>>) -> bool {
    let c = chunk_size(users.len()) as int;
    &&& g.len() <= leaders.len()
    &&& forall|i: int| 0 <= i < g.len() ==> #[trigger] (i * c) < users.len()
    &&& g.len() == leaders.len() || g.len() * c >= users.len()
    &&& forall|i: int| 0 <= i < g.len() ==> (#[trigger] g[i])@ == group_spec(leaders, users, i)
}

/// Pairs each leader, in order, with the next chunk of users; leaders or
/// chunks left over form no group.
pub fn create_groups(table: &EidolonTable) -> (r: Option<Vec<Vec<u64>>>)
    ensures
        r is Some,
        groups_of(table.leaders@, table.users@, r->Some_0@),
        table.leaders@.len() > 0 && table.users@.len() > 0 ==> r->Some_0@.len() > 0,
{
    let leaders = &table.leaders;
    let users = &table.users;
    let n_users = users.len();
    let c: usize = if n_users % 2 == 0 {
        2
    } else {
        3
    };
    let mut groups: Vec<Vec<u64>> = Vec::new();
    let mut i: usize = 0;
    let mut start: usize = 0;
    while i < leaders.len() && start < n_users
        invariant
            c == chunk_size(n_users as nat),
            n_users == users@.len(),
            i <= leaders@.len(),
            groups@.len() == i,
            start == i * c || (start == n_users && i * c >= n_users),
            start <= n_users,
            forall|j: int| 0 <= j < i ==> #[trigger] (j * c) < n_users,
            forall|j: int|
                0 <= j < i ==> (#[trigger] groups@[j])@ == group_spec(leaders@, users@, j),
        decreases leaders@.len() - i,
    {
        let hi = if n_users - start > c {
            start + c
        } else {
            n_users
        };
        let mut group: Vec<u64> = Vec::new();
        group.push(leaders[i]);
        let mut k = start;
        while k < hi
            invariant
                start <= k <= hi <= n_users,
                n_users == users@.len(),
                i < leaders@.len(),
                group@ == seq![leaders@[i as int]] + users@.subrange(start as int, k as int),
            decreases hi - k,
        {
            group.push(users[k]);
            k += 1;
            assert(group@ =~= seq![leaders@[i as int]] + users@.subrange(start as int, k as int));
        }
        assert(group@ == group_spec(leaders@, users@, i as int));
        groups.push(group);
        i += 1;
        if hi == n_users {
            start = n_users;
            assert(i * c >= n_users) by (nonlinear_arith)
                requires
                    i * c == (i - 1) * c + c,
                    (i - 1) * c + c >= n_users,
            ;
        } else {
            start = hi;
        }
        assert(i * c == (i - 1) * c + c) by (nonlinear_arith);
    }
    Some(groups)
}

/// The announcement for a team warning.
pub enum TeamReply {
    /// Nothing to announce.
    Nothing,
    /// Not enough people to form groups.
    NoGroups,
    /// The groups that formed.
    Groups(Vec<Vec<u64>>),
}

/// The team announcement for a table with `channel`, `leaders` and
/// `users`. With no channel there is nothing to say; without leaders, or
/// with one leader and nobody else, no groups form; several leaders and
/// nobody else is left without action; otherwise the groups are listed.
pub open spec fn team_reply_for(
    channel: Option<u64>,
    leaders: Seq<u64>,
    users: Seq<u64>,
    r: TeamReply,
) -> bool {
    if channel is None {
        r is Nothing
    } else if leaders.len() == 0 {
        r is NoGroups
    } else if users.len() == 0 {
        if leaders.len() == 1 {
            r is NoGroups
        } else {
            r is Nothing
        }
    } else {
        r matches TeamReply::Groups(g) && g@.len() > 0 && groups_of(leaders, users, g@)
    }
}

/// Decides the team announcement for `table` (see `team_reply_for`).
pub fn create_team_response(table: &EidolonTable) -> (r: TeamReply)
    ensures
        team_reply_for(table.channel, table.leaders@, table.users@, r),
{
    if table.channel.is_none() {
        return TeamReply::Nothing;
    }
    if table.leaders.len() == 0 {
        return TeamReply::NoGroups;
    }
    let groups = match create_groups(table) {
        Some(g) => g,
        None => Vec::new(),
    };
    if groups.len() == 0 {
        proof {
            let c = chunk_size(table.users@.len()) as int;
            assert(0 * c == 0);
        }
        if table.leaders.len() <= 1 {
            return TeamReply::NoGroups;
        }
        return TeamReply::Nothing;
    }
    proof {
        let c = chunk_size(table.users@.len()) as int;
        assert((0 * c) < table.users@.len());
    }
    TeamReply::Groups(groups)
}

/// The text that the status service gives ten minutes before night.
pub const TEN_TO_NIGHT: &'static str = "10m to Night";

/// The text that the status service gives five minutes before day.
pub const FIVE_TO_DAY: &'static str = "5m to Day";

/// The announcement worth making for a new report `is_day` / `short`, when
/// the last known state was `day`.
pub open spec fn api_for(day: bool, is_day: bool, short: Seq<char>) -> Option<Api> {
    if day == is_day {
        if short == TEN_TO_NIGHT@ {
            Some(Api::Ten)
        } else if short == FIVE_TO_DAY@ {
            Some(Api::Five)
        } else {
            None
        }
    } else {
        Some(Api::Change(is_day))
    }
}

/// What one tick of the cycle watcher announces.
pub enum CycleAction {
    Nothing,
    /// Day (`true`) or night has begun.
    Announce(bool),
    /// A warning, with the team announcement that goes with it.
    Warn(Api, TeamReply),
}

/// One tick of the cycle watcher, given the latest report: records whether
/// it is day, and decides what to announce. Five minutes before day the
/// sign-ups are cleared first. With no channel set nothing happens at all.
pub fn cycle_step(table: &mut EidolonTable, day: &mut bool, report: &Cetus) -> (r: CycleAction)
    ensures
        old(table).channel is None ==> r is Nothing && *final(day) == *old(day)
            && final(table).leaders@ == old(table).leaders@
            && final(table).users@ == old(table).users@,
        old(table).channel is Some ==> ({
            let api = api_for(*old(day), report.day, report.short@);
            &&& *final(day) == report.day
            &&& final(table).channel == old(table).channel
            &&& api == Some(Api::Five) ==> final(table).leaders@.len() == 0
                && final(table).users@.len() == 0 && (r matches CycleAction::Warn(
                Api::Five,
                TeamReply::NoGroups,
            ))
            &&& api != Some(Api::Five) ==> final(table).leaders@ == old(table).leaders@
                && final(table).users@ == old(table).users@
            &&& api == Some(Api::Ten) ==> (r matches CycleAction::Warn(Api::Ten, reply)
                && team_reply_for(old(table).channel, old(table).leaders@, old(table).users@, reply))
            &&& api is None ==> r is Nothing
            &&& forall|d: bool|
                api == Some(Api::Change(d)) ==> if old(table).leaders@.len() > 0 {
                    r matches CycleAction::Announce(x) && x == d
                } else {
                    r is Nothing
                }
        }),
{
    if table.channel.is_none() {
        return CycleAction::Nothing;
    }
    let api = if *day == report.day {
        if str_eq(report.short.as_str(), TEN_TO_NIGHT) {
            Some(Api::Ten)
        } else if str_eq(report.short.as_str(), FIVE_TO_DAY) {
            Some(Api::Five)
        } else {
            None
        }
    } else {
        *day = report.day;
        Some(Api::Change(report.day))
    };
    match api {
        Some(Api::Change(d)) => {
            if table.leaders.len() > 0 {
                CycleAction::Announce(d)
            } else {
                CycleAction::Nothing
            }
        },
        Some(Api::Five) => {
            table.leaders = Vec::new();
            table.users = Vec::new();
            CycleAction::Warn(Api::Five, create_team_response(table))
        },
        Some(Api::Ten) => CycleAction::Warn(Api::Ten, create_team_response(table)),
        None => CycleAction::Nothing,
    }
}

} // verus!
