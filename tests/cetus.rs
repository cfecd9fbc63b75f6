use parrot::{create_groups, create_team_response, cycle_step, Api, Cetus, CycleAction, EidolonTable, TeamReply};

fn report(day: bool, short: &str) -> Cetus {
    Cetus {
        id: String::new(),
        expiry: String::new(),
        activation: String::new(),
        day,
        cetus: true,
        state: String::new(),
        left: String::new(),
        short: short.to_string(),
    }
}

#[test]
fn groups_pair_leaders_with_user_chunks() {
    let table = EidolonTable { channel: Some(1), leaders: vec![1, 2, 3], users: vec![10, 11, 12, 13, 14] };
    assert_eq!(create_groups(&table), Some(vec![vec![1, 10, 11, 12], vec![2, 13, 14]]));
    let even = EidolonTable { channel: Some(1), leaders: vec![1], users: vec![10, 11, 12, 13] };
    assert_eq!(create_groups(&even), Some(vec![vec![1, 10, 11]]));
}

#[test]
fn team_replies() {
    let none = EidolonTable { channel: None, leaders: vec![1], users: vec![2] };
    assert!(matches!(create_team_response(&none), TeamReply::Nothing));
    let no_leaders = EidolonTable { channel: Some(1), leaders: vec![], users: vec![2] };
    assert!(matches!(create_team_response(&no_leaders), TeamReply::NoGroups));
    let lone = EidolonTable { channel: Some(1), leaders: vec![1], users: vec![] };
    assert!(matches!(create_team_response(&lone), TeamReply::NoGroups));
    let leaders_only = EidolonTable { channel: Some(1), leaders: vec![1, 2], users: vec![] };
    assert!(matches!(create_team_response(&leaders_only), TeamReply::Nothing));
    let full = EidolonTable { channel: Some(1), leaders: vec![1], users: vec![5, 6] };
    match create_team_response(&full) {
        TeamReply::Groups(g) => assert_eq!(g, vec![vec![1, 5, 6]]),
        _ => panic!("expected groups"),
    }
}

#[test]
fn cycle_ticks() {
    let mut table = EidolonTable { channel: Some(1), leaders: vec![1], users: vec![2, 3] };
    let mut day = true;
    assert!(matches!(cycle_step(&mut table, &mut day, &report(true, "20m to Night")), CycleAction::Nothing));
    assert!(matches!(
        cycle_step(&mut table, &mut day, &report(true, "10m to Night")),
        CycleAction::Warn(Api::Ten, TeamReply::Groups(_))
    ));
    assert!(matches!(cycle_step(&mut table, &mut day, &report(false, "49m to Day")), CycleAction::Announce(false)));
    assert!(!day);
    assert!(matches!(
        cycle_step(&mut table, &mut day, &report(false, "5m to Day")),
        CycleAction::Warn(Api::Five, TeamReply::NoGroups)
    ));
    assert!(table.leaders.is_empty() && table.users.is_empty());

    let mut busy = EidolonTable { channel: Some(1), leaders: vec![1, 2], users: vec![3, 4, 5] };
    let mut night = false;
    assert!(matches!(
        cycle_step(&mut busy, &mut night, &report(false, "5m to Day")),
        CycleAction::Warn(Api::Five, TeamReply::NoGroups)
    ));

    let mut idle = EidolonTable::new();
    let mut d = true;
    assert!(matches!(cycle_step(&mut idle, &mut d, &report(false, "x")), CycleAction::Nothing));
    assert!(d);
}
