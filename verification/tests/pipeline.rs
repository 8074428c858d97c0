use scumsim::components::{Faction, Modifier, PlayerRef, Role};
use scumsim::entities::create_player;
use scumsim::resources::{CurrentNight, Night};
use scumsim::schedule::{pipeline, run_night, run_phase, Phase};
use scumsim::store::PlayerStore;
use scumsim::systems::{Report, UpdateTargets};

fn player(store: &mut PlayerStore, name: &str, faction: Faction, role: Role) -> PlayerRef {
    create_player(store, String::from(name), faction, role, vec![])
}

fn outcome(store: &PlayerStore, r: PlayerRef) -> (bool, String) {
    let result = store.get(r).result.as_ref().unwrap();
    (result.success, result.val.clone())
}

fn all_lines(reports: &Vec<Report>) -> Vec<String> {
    let mut lines = Vec::new();
    for report in reports.iter() {
        for line in report.lines() {
            lines.push(line);
        }
    }
    lines
}

fn nobody_affected(store: &PlayerStore) -> bool {
    (0..store.len()).all(|i| store.blocked(PlayerRef(i)).is_none() && store.saved(PlayerRef(i)).is_none())
}

#[test]
fn order_of_a_night() {
    assert_eq!(
        pipeline(),
        vec![
            Phase::Targets,
            Phase::Blockers,
            Phase::Visits,
            Phase::Cops,
            Phase::Detectives,
            Phase::Trackers,
            Phase::Watchers,
            Phase::Doctors,
            Phase::Killers,
            Phase::Results,
            Phase::RemoveEffects,
            Phase::Deaths,
            Phase::AdvanceNight,
        ]
    );
}

#[test]
fn every_phase_runs_after_what_it_depends_on() {
    let order = pipeline();
    for (at, phase) in order.iter().enumerate() {
        for dep in phase.dependencies() {
            let before = order.iter().position(|p| *p == dep).unwrap();
            assert!(before < at);
        }
    }
    assert!(Phase::Targets.dependencies().is_empty());
    assert_eq!(Phase::Visits.dependencies(), vec![Phase::Targets, Phase::Blockers]);
    assert_eq!(
        Phase::Doctors.dependencies(),
        vec![Phase::Cops, Phase::Detectives, Phase::Trackers, Phase::Watchers]
    );
    assert_eq!(Phase::AdvanceNight.dependencies(), vec![Phase::RemoveEffects, Phase::Deaths]);
}

#[test]
fn phases_are_known_by_name() {
    let names: Vec<&str> = pipeline().iter().map(|p| p.name()).collect();
    assert_eq!(
        names,
        vec![
            "update_targets",
            "blockers",
            "update_visits",
            "cops",
            "detectives",
            "trackers",
            "watchers",
            "doctors",
            "killers",
            "results",
            "remove_effects",
            "deaths",
            "advance_night",
        ]
    );
}

#[test]
fn a_night_without_targets_fails_everybody() {
    let mut store = PlayerStore::new();
    create_player(
        &mut store,
        String::from("player1"),
        Faction::Town,
        Role::Detective,
        vec![Modifier::Breakthrough],
    );
    player(&mut store, "player2", Faction::Mafia, Role::Godfather);
    player(&mut store, "player3", Faction::Town, Role::Doctor);
    create_player(
        &mut store,
        String::from("player4"),
        Faction::Mafia,
        Role::Roleblocker,
        vec![Modifier::Macho],
    );
    player(&mut store, "player5", Faction::Town, Role::Watcher);
    player(&mut store, "player6", Faction::Town, Role::Tracker);
    let mut night = CurrentNight(Night::new(0));
    let town = store.find_living(&String::from("Red123"));
    let mafia = store.find_living(&String::from("BlueMarble"));
    assert_eq!(town, None);
    assert_eq!(mafia, None);
    let mut input = UpdateTargets::by_faction(&store, town, mafia);
    let reports = run_night(&mut store, &mut night, &mut input);
    assert_eq!(night.0.get(), 1);
    assert_eq!(
        all_lines(&reports),
        vec![
            String::from("Breakthrough Detective player1 targets nobody - fail - n/a"),
            String::from("Godfather player2 targets nobody - fail - n/a"),
            String::from("Doctor player3 targets nobody - fail - n/a"),
            String::from("Macho Roleblocker player4 targets nobody - fail - n/a"),
            String::from("Watcher player5 targets nobody - fail - n/a"),
            String::from("Tracker player6 targets nobody - fail - n/a"),
        ]
    );
    let again = run_night(&mut store, &mut night, &mut input);
    assert_eq!(night.0.get(), 2);
    assert_eq!(all_lines(&again), all_lines(&reports));
}

#[test]
fn a_full_night_with_block_save_and_kill() {
    let mut store = PlayerStore::new();
    let blocker = player(&mut store, "rita", Faction::Mafia, Role::Roleblocker);
    let doctor = player(&mut store, "dora", Faction::Town, Role::Doctor);
    let x = player(&mut store, "xavier", Faction::Town, Role::Vanilla);
    let godfather = player(&mut store, "vito", Faction::Mafia, Role::Godfather);
    let tracker = player(&mut store, "tess", Faction::Town, Role::Tracker);
    let watcher = player(&mut store, "walt", Faction::Town, Role::Watcher);
    let mut night = CurrentNight(Night::new(1));
    let mut input = UpdateTargets::new();
    input.submit(blocker, Some(doctor));
    input.submit(doctor, Some(x));
    input.submit(godfather, Some(x));
    input.submit(tracker, Some(doctor));
    input.submit(watcher, Some(x));
    let reports = run_night(&mut store, &mut night, &mut input);

    assert_eq!(night.0.get(), 2);
    assert_eq!(outcome(&store, blocker), (true, String::from("n/a")));
    assert_eq!(outcome(&store, doctor), (false, String::from("n/a")));
    assert_eq!(outcome(&store, godfather), (true, String::from("n/a")));
    // the blocked doctor did not move
    assert_eq!(outcome(&store, tracker), (true, String::from("nowhere")));
    assert_eq!(outcome(&store, watcher), (true, String::from("vito, walt")));
    assert_eq!(store.get(x).dead.as_ref().unwrap().0.get(), 1);
    assert!(store.get(x).long_dead.is_some());
    assert!(store.get(x).target.0.is_none());
    assert!(nobody_affected(&store));
    assert_eq!(
        all_lines(&reports),
        vec![
            String::from("Roleblocker rita targets dora - success - n/a"),
            String::from("Doctor dora targets xavier - fail - n/a"),
            String::from("Godfather vito targets xavier - success - n/a"),
            String::from("Tracker tess targets dora - success - nowhere"),
            String::from("Watcher walt targets xavier - success - vito, walt"),
        ]
    );
}

#[test]
fn the_one_who_dies_is_reported_that_night_only() {
    let mut store = PlayerStore::new();
    let goon = player(&mut store, "gus", Faction::Mafia, Role::Goon);
    let cop = player(&mut store, "carol", Faction::Town, Role::Cop);
    let mut night = CurrentNight(Night::new(1));
    let mut input = UpdateTargets::new();
    input.submit(goon, Some(cop));
    input.submit(cop, Some(goon));
    let first = run_night(&mut store, &mut night, &mut input);
    assert_eq!(
        all_lines(&first),
        vec![
            String::from("Goon gus targets carol - success - n/a"),
            String::from("Cop carol targets gus - success - Guilty"),
            String::from("Cop carol died"),
        ]
    );
    assert!(first[1].died);
    assert!(!first[0].died);
    let second = run_night(&mut store, &mut night, &mut input);
    assert_eq!(all_lines(&second), vec![String::from("Goon gus targets carol - success - n/a")]);
    assert_eq!(night.0.get(), 3);
}

#[test]
fn death_is_kept_over_the_nights() {
    let mut store = PlayerStore::new();
    let goon = player(&mut store, "gus", Faction::Mafia, Role::Goon);
    let godfather = player(&mut store, "vito", Faction::Mafia, Role::Godfather);
    let victim = player(&mut store, "vic", Faction::Town, Role::Doctor);
    let mut night = CurrentNight(Night::new(0));
    let mut input = UpdateTargets::new();
    input.submit(goon, Some(victim));
    input.submit(godfather, Some(victim));
    input.submit(victim, Some(goon));
    // the setup night: nobody dies
    run_night(&mut store, &mut night, &mut input);
    assert!(store.get(victim).dead.is_none());
    assert_eq!(outcome(&store, goon), (false, String::from("n/a")));
    assert_eq!(outcome(&store, godfather), (false, String::from("n/a")));
    assert_eq!(outcome(&store, victim), (true, String::from("n/a")));
    // night 1: both kill the same player, who dies once
    input.submit(victim, None);
    run_night(&mut store, &mut night, &mut input);
    assert_eq!(store.get(victim).dead.as_ref().unwrap().0.get(), 1);
    assert!(store.get(victim).long_dead.is_some());
    // the dead are not given a target again, and stay as dead as they were
    input.submit(victim, Some(goon));
    for _ in 0..3 {
        run_night(&mut store, &mut night, &mut input);
        assert_eq!(store.get(victim).dead.as_ref().unwrap().0.get(), 1);
        assert!(store.get(victim).long_dead.is_some());
        assert!(store.get(victim).target.0.is_none());
        assert!(nobody_affected(&store));
    }
    assert_eq!(night.0.get(), 5);
}

#[test]
fn effects_do_not_leak_into_the_next_night() {
    let mut store = PlayerStore::new();
    let blocker = player(&mut store, "rita", Faction::Mafia, Role::Roleblocker);
    let cop = player(&mut store, "carol", Faction::Town, Role::Cop);
    let doctor = player(&mut store, "dora", Faction::Town, Role::Doctor);
    let mut night = CurrentNight(Night::new(1));
    let mut input = UpdateTargets::new();
    input.submit(blocker, Some(cop));
    input.submit(cop, Some(blocker));
    input.submit(doctor, Some(cop));
    run_night(&mut store, &mut night, &mut input);
    assert_eq!(outcome(&store, cop), (false, String::from("n/a")));
    assert_eq!(outcome(&store, doctor), (true, String::from("n/a")));
    assert!(nobody_affected(&store));
    // next night the blocker rests: the cop is free again
    input.submit(blocker, None);
    input.submit(doctor, None);
    run_night(&mut store, &mut night, &mut input);
    assert_eq!(outcome(&store, cop), (true, String::from("Guilty")));
    assert_eq!(outcome(&store, blocker), (false, String::from("n/a")));
    assert!(nobody_affected(&store));
}

#[test]
fn phases_run_one_by_one_make_a_night() {
    let mut by_night = PlayerStore::new();
    let mut by_phase = PlayerStore::new();
    for store in [&mut by_night, &mut by_phase] {
        player(store, "rita", Faction::Mafia, Role::Roleblocker);
        player(store, "carol", Faction::Town, Role::Sheriff);
        player(store, "gus", Faction::Mafia, Role::Goon);
    }
    let mut input = UpdateTargets::new();
    input.submit(PlayerRef(0), Some(PlayerRef(2)));
    input.submit(PlayerRef(1), Some(PlayerRef(2)));
    input.submit(PlayerRef(2), Some(PlayerRef(1)));
    let mut night_a = CurrentNight(Night::new(4));
    let mut night_b = CurrentNight(Night::new(4));
    let reports_a = run_night(&mut by_night, &mut night_a, &mut input);
    let mut reports_b: Vec<Report> = Vec::new();
    for phase in pipeline() {
        run_phase(phase, &mut by_phase, &mut night_b, &mut input, &mut reports_b);
    }
    assert_eq!(night_a.0.get(), 5);
    assert_eq!(night_b.0.get(), 5);
    assert_eq!(all_lines(&reports_a), all_lines(&reports_b));
    assert_eq!(
        all_lines(&reports_a),
        vec![
            String::from("Roleblocker rita targets gus - success - n/a"),
            String::from("Sheriff carol targets gus - success - Goon"),
            String::from("Sheriff carol died"),
            String::from("Goon gus targets carol - success - n/a"),
        ]
    );
    for i in 0..3 {
        assert_eq!(outcome(&by_night, PlayerRef(i)), outcome(&by_phase, PlayerRef(i)));
    }
}
