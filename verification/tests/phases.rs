use scumsim::components::actions::{Action, Cop, Detective, Track};
use scumsim::components::attributes::{Innocence, Uncoppable, Undetectable, Untrackable};
use scumsim::components::{Faction, Modifier, NightResult, PlayerRef, Position, Role};
use scumsim::entities::create_player;
use scumsim::resources::{CurrentNight, Night};
use scumsim::store::PlayerStore;
use scumsim::systems::{
    BlockActions, CopActions, DetActions, FinishNight, InfoActions, KillActions, PrintResults,
    ProcessDeaths, RemoveEffects, SaveActions, TrackActions, UpdateTargets, UpdateVisits,
    WatchActions,
};

fn add(store: &mut PlayerStore, name: &str, faction: Faction, role: Role) -> PlayerRef {
    create_player(store, String::from(name), faction, role, vec![])
}

fn add_with(
    store: &mut PlayerStore,
    name: &str,
    faction: Faction,
    role: Role,
    modifiers: Vec<Modifier>,
) -> PlayerRef {
    create_player(store, String::from(name), faction, role, modifiers)
}

fn result_of(store: &PlayerStore, r: PlayerRef) -> (bool, String) {
    let result: &NightResult = store.get(r).result.as_ref().unwrap();
    (result.success, result.val.clone())
}

fn ok(val: &str) -> (bool, String) {
    (true, String::from(val))
}

fn fail() -> (bool, String) {
    (false, String::from("n/a"))
}

fn night(n: u8) -> CurrentNight {
    CurrentNight(Night::new(n))
}

#[test]
fn roleblocker_stops_doctor_and_godfather_kills() {
    let mut store = PlayerStore::new();
    let blocker = add(&mut store, "blocker", Faction::Mafia, Role::Roleblocker);
    let doctor = add(&mut store, "doctor", Faction::Town, Role::Doctor);
    let x = add(&mut store, "x", Faction::Town, Role::Vanilla);
    let godfather = add(&mut store, "godfather", Faction::Mafia, Role::Godfather);
    store.aim(blocker, Some(doctor));
    store.aim(doctor, Some(x));
    store.aim(godfather, Some(x));

    BlockActions.run(&mut store);
    assert!(store.blocked(doctor).is_some());
    assert_eq!(result_of(&store, blocker), ok("n/a"));

    SaveActions.run(&mut store);
    assert_eq!(result_of(&store, doctor), fail());
    assert!(store.saved(x).is_none());

    KillActions.run(&mut store, &night(3));
    assert_eq!(store.get(x).dead.as_ref().unwrap().0.get(), 3);
    assert_eq!(result_of(&store, godfather), ok("n/a"));
}

#[test]
fn cop_finds_goon_guilty_and_detective_fails_on_godfather() {
    let mut store = PlayerStore::new();
    let cop = add(&mut store, "cop", Faction::Town, Role::Cop);
    let goon = add(&mut store, "goon", Faction::Mafia, Role::Goon);
    let detective = add(&mut store, "detective", Faction::Town, Role::Detective);
    let godfather = add(&mut store, "godfather", Faction::Mafia, Role::Godfather);
    store.aim(cop, Some(goon));
    store.aim(detective, Some(godfather));

    InfoActions::<Cop, Innocence, Uncoppable>::new().run(&mut store);
    assert_eq!(result_of(&store, cop), ok("Guilty"));
    assert!(store.get(detective).result.is_none());

    InfoActions::<Detective, Role, Undetectable>::new().run(&mut store);
    assert_eq!(result_of(&store, detective), fail());
    assert_eq!(result_of(&store, cop), ok("Guilty"));
}

#[test]
fn cop_reads_godfather_as_innocent_and_detective_reads_roles() {
    let mut store = PlayerStore::new();
    let cop = add(&mut store, "cop", Faction::Town, Role::Cop);
    let godfather = add(&mut store, "godfather", Faction::Mafia, Role::Godfather);
    let detective = add(&mut store, "detective", Faction::Town, Role::Detective);
    let doctor = add(&mut store, "doctor", Faction::Town, Role::Doctor);
    store.aim(cop, Some(godfather));
    store.aim(detective, Some(doctor));
    CopActions.run(&mut store);
    DetActions.run(&mut store);
    assert_eq!(result_of(&store, cop), ok("Innocent"));
    assert_eq!(result_of(&store, detective), ok("Doctor"));
    assert!(store.get(godfather).result.is_none());
    assert!(store.get(doctor).result.is_none());
}

#[test]
fn tracker_sees_nowhere_and_watcher_lists_visitors_in_store_order() {
    let mut store = PlayerStore::new();
    let tracker = add(&mut store, "tracker", Faction::Town, Role::Tracker);
    let homebody = add(&mut store, "homebody", Faction::Town, Role::Vanilla);
    let watcher = add(&mut store, "watcher", Faction::Town, Role::Watcher);
    let host = add(&mut store, "host", Faction::Town, Role::Vanilla);
    let first = add(&mut store, "first", Faction::Town, Role::Cop);
    let second = add(&mut store, "second", Faction::Mafia, Role::Goon);
    store.aim(tracker, Some(homebody));
    store.aim(watcher, Some(host));
    store.aim(first, Some(host));
    store.aim(second, Some(host));
    store.aim(homebody, Some(host));
    UpdateVisits.run(&mut store);
    // a vanilla player has a target here but no visiting role: stays home
    assert!(store.get(homebody).position.0.is_none());
    assert_eq!(store.get(first).position.0, Some(host));

    TrackActions.run(&mut store);
    assert_eq!(result_of(&store, tracker), ok("nowhere"));

    WatchActions.run(&mut store);
    // the watcher visits the host too, and is listed in store order
    assert_eq!(result_of(&store, watcher), ok("watcher, first, second"));
}

#[test]
fn watcher_of_a_lonely_target_sees_an_empty_list() {
    let mut store = PlayerStore::new();
    let watcher = add(&mut store, "watcher", Faction::Town, Role::Watcher);
    let host = add(&mut store, "host", Faction::Town, Role::Vanilla);
    store.aim(watcher, Some(host));
    // nobody has moved: positions are all empty
    WatchActions.run(&mut store);
    assert_eq!(result_of(&store, watcher), ok(""));
    assert_eq!(WatchActions::visitor_names(&store, host), "");
}

#[test]
fn watcher_sees_exactly_two_other_visitors() {
    let mut store = PlayerStore::new();
    let host = add(&mut store, "host", Faction::Town, Role::Vanilla);
    let n1 = add(&mut store, "name1", Faction::Town, Role::Doctor);
    let other = add(&mut store, "elsewhere", Faction::Town, Role::Cop);
    let n2 = add(&mut store, "name2", Faction::Mafia, Role::Godfather);
    let watcher = add(&mut store, "watcher", Faction::Town, Role::Watcher);
    store.aim(n1, Some(host));
    store.aim(n2, Some(host));
    store.aim(other, Some(n1));
    store.aim(watcher, Some(host));
    store.set_position(n1, Some(host));
    store.set_position(n2, Some(host));
    store.set_position(other, Some(n1));
    WatchActions.run(&mut store);
    assert_eq!(result_of(&store, watcher), ok("name1, name2"));
}

#[test]
fn tracker_names_the_player_visited() {
    let mut store = PlayerStore::new();
    let tracker = add(&mut store, "tracker", Faction::Town, Role::Tracker);
    let goon = add(&mut store, "goon", Faction::Mafia, Role::Goon);
    let victim = add(&mut store, "victim", Faction::Town, Role::Vanilla);
    store.aim(tracker, Some(goon));
    store.aim(goon, Some(victim));
    UpdateVisits.run(&mut store);
    InfoActions::<Track, Position, Untrackable>::new().run(&mut store);
    assert_eq!(result_of(&store, tracker), ok("victim"));
}

#[test]
fn doctor_cannot_save_macho_and_the_kill_goes_through() {
    let mut store = PlayerStore::new();
    let doctor = add(&mut store, "doctor", Faction::Town, Role::Doctor);
    let macho = add_with(&mut store, "macho", Faction::Town, Role::Vanilla, vec![Modifier::Macho]);
    let goon = add(&mut store, "goon", Faction::Mafia, Role::Goon);
    store.aim(doctor, Some(macho));
    store.aim(goon, Some(macho));
    SaveActions.run(&mut store);
    assert_eq!(result_of(&store, doctor), fail());
    assert!(store.saved(macho).is_none());
    KillActions.run(&mut store, &night(1));
    assert_eq!(result_of(&store, goon), ok("n/a"));
    assert_eq!(store.get(macho).dead.as_ref().unwrap().0.get(), 1);
}

#[test]
fn doctor_saves_and_the_kill_fails() {
    let mut store = PlayerStore::new();
    let doctor = add(&mut store, "doctor", Faction::Town, Role::Doctor);
    let x = add(&mut store, "x", Faction::Town, Role::Vanilla);
    let goon = add(&mut store, "goon", Faction::Mafia, Role::Goon);
    store.aim(doctor, Some(x));
    store.aim(goon, Some(x));
    SaveActions.run(&mut store);
    assert_eq!(result_of(&store, doctor), ok("n/a"));
    assert!(store.saved(x).is_some());
    assert!(store.saved(doctor).is_none());
    KillActions.run(&mut store, &night(2));
    assert_eq!(result_of(&store, goon), fail());
    assert!(store.get(x).dead.is_none());
}

#[test]
fn breakthrough_defeats_every_block_aimed_at_it() {
    let mut store = PlayerStore::new();
    let b1 = add(&mut store, "b1", Faction::Mafia, Role::Roleblocker);
    let b2 = add(&mut store, "b2", Faction::Town, Role::Roleblocker);
    let tough =
        add_with(&mut store, "tough", Faction::Town, Role::Cop, vec![Modifier::Breakthrough]);
    let soft = add(&mut store, "soft", Faction::Town, Role::Cop);
    let b3 = add(&mut store, "b3", Faction::Town, Role::Roleblocker);
    store.aim(b1, Some(tough));
    store.aim(b2, Some(tough));
    store.aim(b3, Some(soft));
    BlockActions.run(&mut store);
    assert_eq!(result_of(&store, b1), fail());
    assert_eq!(result_of(&store, b2), fail());
    assert_eq!(result_of(&store, b3), ok("n/a"));
    assert!(store.blocked(tough).is_none());
    assert!(store.blocked(soft).is_some());
    assert!(store.blocked(b1).is_none());
}

#[test]
fn blocker_without_target_fails_and_blocks_nobody() {
    let mut store = PlayerStore::new();
    let blocker = add(&mut store, "blocker", Faction::Mafia, Role::Roleblocker);
    let other = add(&mut store, "other", Faction::Town, Role::Vanilla);
    store.aim(blocker, None);
    BlockActions.run(&mut store);
    assert_eq!(result_of(&store, blocker), fail());
    assert!(store.blocked(other).is_none());
    assert!(store.blocked(blocker).is_none());
    assert!(store.get(other).result.is_none());
}

#[test]
fn blocked_actor_learns_nothing_even_without_a_stopper() {
    let mut store = PlayerStore::new();
    let cop = add(&mut store, "cop", Faction::Town, Role::Cop);
    let goon = add(&mut store, "goon", Faction::Mafia, Role::Goon);
    let detective = add(&mut store, "detective", Faction::Town, Role::Detective);
    let godfather = add(&mut store, "godfather", Faction::Mafia, Role::Godfather);
    let tracker = add(&mut store, "tracker", Faction::Town, Role::Tracker);
    let watcher = add(&mut store, "watcher", Faction::Town, Role::Watcher);
    store.aim(cop, Some(goon));
    store.aim(detective, Some(godfather));
    store.aim(tracker, Some(goon));
    store.aim(watcher, Some(goon));
    store.block(cop);
    store.block(detective);
    store.block(tracker);
    store.block(watcher);
    CopActions.run(&mut store);
    DetActions.run(&mut store);
    TrackActions.run(&mut store);
    WatchActions.run(&mut store);
    assert_eq!(result_of(&store, cop), fail());
    assert_eq!(result_of(&store, detective), fail());
    assert_eq!(result_of(&store, tracker), fail());
    assert_eq!(result_of(&store, watcher), fail());
}

#[test]
fn inactive_or_targetless_information_fails() {
    let mut store = PlayerStore::new();
    let idle = add(&mut store, "idle", Faction::Town, Role::Cop);
    let aimless = add(&mut store, "aimless", Faction::Town, Role::Cop);
    let goon = add(&mut store, "goon", Faction::Mafia, Role::Goon);
    // `idle` was never aimed: the action is not active
    store.aim(aimless, None);
    CopActions.run(&mut store);
    assert_eq!(result_of(&store, idle), fail());
    assert_eq!(result_of(&store, aimless), fail());
    assert!(store.get(goon).result.is_none());
}

#[test]
fn no_kill_on_night_zero() {
    let mut store = PlayerStore::new();
    let goon = add(&mut store, "goon", Faction::Mafia, Role::Goon);
    let godfather = add(&mut store, "godfather", Faction::Mafia, Role::Godfather);
    let x = add(&mut store, "x", Faction::Town, Role::Vanilla);
    store.aim(goon, Some(x));
    store.aim(godfather, Some(x));
    KillActions.run(&mut store, &night(0));
    assert_eq!(result_of(&store, goon), fail());
    assert_eq!(result_of(&store, godfather), fail());
    assert!(store.get(x).dead.is_none());
    assert!(store.get(x).result.is_none());
}

#[test]
fn first_death_stands() {
    let mut store = PlayerStore::new();
    let goon = add(&mut store, "goon", Faction::Mafia, Role::Goon);
    let godfather = add(&mut store, "godfather", Faction::Mafia, Role::Godfather);
    let x = add(&mut store, "x", Faction::Town, Role::Vanilla);
    store.aim(goon, Some(x));
    store.aim(godfather, Some(x));
    KillActions.run(&mut store, &night(2));
    assert_eq!(result_of(&store, goon), ok("n/a"));
    assert_eq!(result_of(&store, godfather), ok("n/a"));
    assert_eq!(store.get(x).dead.as_ref().unwrap().0.get(), 2);
    // a later kill on the same player succeeds and leaves the night of death alone
    KillActions.run(&mut store, &night(5));
    assert_eq!(result_of(&store, goon), ok("n/a"));
    assert_eq!(store.get(x).dead.as_ref().unwrap().0.get(), 2);
}

#[test]
fn deaths_are_processed_once_and_for_all() {
    let mut store = PlayerStore::new();
    let goon = add(&mut store, "goon", Faction::Mafia, Role::Goon);
    let x = add(&mut store, "x", Faction::Town, Role::Cop);
    store.aim(goon, Some(x));
    store.aim(x, Some(goon));
    KillActions.run(&mut store, &night(1));
    assert!(store.get(x).dead.is_some());
    assert!(store.get(x).long_dead.is_none());
    assert_eq!(store.get(x).target.0, Some(goon));
    ProcessDeaths.run(&mut store);
    assert!(store.get(x).long_dead.is_some());
    assert!(store.get(x).target.0.is_none());
    assert!(store.get(goon).long_dead.is_none());
    assert_eq!(store.get(goon).target.0, Some(x));
    ProcessDeaths.run(&mut store);
    assert!(store.get(x).long_dead.is_some());
    assert!(store.get(x).target.0.is_none());
    assert_eq!(store.get(x).dead.as_ref().unwrap().0.get(), 1);
}

#[test]
fn effects_are_removed_from_everybody() {
    let mut store = PlayerStore::new();
    let a = add(&mut store, "a", Faction::Town, Role::Vanilla);
    let b = add(&mut store, "b", Faction::Town, Role::Vanilla);
    store.block(a);
    store.save(b);
    store.save(a);
    assert!(store.blocked(a).is_some() && store.saved(a).is_some() && store.saved(b).is_some());
    RemoveEffects.run(&mut store);
    assert!(store.blocked(a).is_none());
    assert!(store.blocked(b).is_none());
    assert!(store.saved(a).is_none());
    assert!(store.saved(b).is_none());
}

#[test]
fn night_advances_by_one() {
    let mut current = night(0);
    FinishNight.run(&mut current);
    assert_eq!(current.0.get(), 1);
    FinishNight.run(&mut current);
    assert_eq!(current.0.get(), 2);
    let mut late = night(254);
    FinishNight.run(&mut late);
    assert_eq!(late.0.get(), 255);
}

#[test]
fn blocked_visitor_stays_home() {
    let mut store = PlayerStore::new();
    let cop = add(&mut store, "cop", Faction::Town, Role::Cop);
    let goon = add(&mut store, "goon", Faction::Mafia, Role::Goon);
    store.aim(cop, Some(goon));
    store.aim(goon, Some(cop));
    store.set_position(cop, Some(cop));
    store.block(cop);
    UpdateVisits.run(&mut store);
    assert!(store.get(cop).position.0.is_none());
    assert_eq!(store.get(goon).position.0, Some(cop));
}

#[test]
fn targets_by_faction_reach_the_living_only() {
    let mut store = PlayerStore::new();
    let cop = add(&mut store, "cop", Faction::Town, Role::Cop);
    let goon = add(&mut store, "goon", Faction::Mafia, Role::Goon);
    let ghost = add(&mut store, "ghost", Faction::Town, Role::Doctor);
    let godfather = add(&mut store, "godfather", Faction::Town, Role::Godfather);
    store.strike(ghost, Night::new(1));
    store.bury(ghost);
    let mut input = UpdateTargets::by_faction(&store, Some(goon), Some(cop));
    input.run(&mut store);
    assert_eq!(store.get(cop).target.0, Some(goon));
    assert_eq!(store.get(goon).target.0, Some(cop));
    // the godfather was asked for as Town and is Mafia
    assert_eq!(store.get(godfather).target.0, Some(cop));
    assert!(store.get(ghost).target.0.is_none());
    assert!(store.get(cop).cop.as_ref().unwrap().active());
    assert_eq!(*store.get(cop).cop.as_ref().unwrap().target(), Some(goon));
    assert!(!store.get(ghost).save.as_ref().unwrap().active());
}

#[test]
fn submitted_targets_replace_earlier_ones_and_default_to_nobody() {
    let mut store = PlayerStore::new();
    let a = add(&mut store, "a", Faction::Town, Role::Cop);
    let b = add(&mut store, "b", Faction::Town, Role::Doctor);
    let c = add(&mut store, "c", Faction::Mafia, Role::Goon);
    store.aim(b, Some(a));
    let mut input = UpdateTargets::new();
    input.submit(c, Some(a));
    input.submit(a, Some(b));
    input.submit(a, Some(c));
    input.run(&mut store);
    assert_eq!(store.get(a).target.0, Some(c));
    assert!(store.get(b).target.0.is_none());
    assert!(!store.get(b).save.as_ref().unwrap().active());
    assert_eq!(store.get(c).target.0, Some(a));
    assert!(store.get(c).kill.as_ref().unwrap().active());
}

#[test]
fn results_report_the_living_who_acted() {
    let mut store = PlayerStore::new();
    let cop = add_with(
        &mut store,
        "carol",
        Faction::Town,
        Role::Cop,
        vec![Modifier::Breakthrough, Modifier::Macho],
    );
    let goon = add(&mut store, "gus", Faction::Mafia, Role::Goon);
    let bystander = add(&mut store, "bob", Faction::Town, Role::Vanilla);
    let doctor = add(&mut store, "dora", Faction::Town, Role::Doctor);
    store.aim(cop, Some(goon));
    store.aim(goon, Some(cop));
    store.aim(doctor, None);
    CopActions.run(&mut store);
    SaveActions.run(&mut store);
    KillActions.run(&mut store, &night(1));
    let reports = PrintResults.run(&store);
    assert_eq!(reports.len(), 3);
    assert_eq!(reports[0].role, Role::Cop);
    assert_eq!(reports[0].modifiers, "Breakthrough Macho ");
    assert_eq!(reports[0].name, "carol");
    assert_eq!(reports[0].target, "gus");
    assert!(reports[0].success);
    assert_eq!(reports[0].value, "Guilty");
    assert!(reports[0].died);
    assert_eq!(
        reports[0].lines(),
        vec![
            String::from("Breakthrough Macho Cop carol targets gus - success - Guilty"),
            String::from("Cop carol died"),
        ]
    );
    assert_eq!(reports[1].lines(), vec![String::from("Goon gus targets carol - success - n/a")]);
    assert_eq!(reports[2].lines(), vec![String::from("Doctor dora targets nobody - fail - n/a")]);
    assert!(store.get(bystander).result.is_none());
    // reporting leaves the store alone
    assert_eq!(result_of(&store, cop), ok("Guilty"));
    // once the death is processed the dead are no longer reported
    ProcessDeaths.run(&mut store);
    let later = PrintResults.run(&store);
    assert_eq!(later.len(), 2);
    assert_eq!(later[0].name, "gus");
    assert_eq!(later[1].name, "dora");
}

#[test]
fn sheriff_ends_with_the_detective_result() {
    let mut store = PlayerStore::new();
    let sheriff = add(&mut store, "sheriff", Faction::Town, Role::Sheriff);
    let goon = add(&mut store, "goon", Faction::Mafia, Role::Goon);
    store.aim(sheriff, Some(goon));
    CopActions.run(&mut store);
    assert_eq!(result_of(&store, sheriff), ok("Guilty"));
    DetActions.run(&mut store);
    assert_eq!(result_of(&store, sheriff), ok("Goon"));
}

#[test]
fn whoever_has_a_target_has_every_action_in_use() {
    let mut store = PlayerStore::new();
    let sheriff = add(&mut store, "sheriff", Faction::Town, Role::Sheriff);
    let doctor = add(&mut store, "doctor", Faction::Town, Role::Doctor);
    let goon = add(&mut store, "goon", Faction::Mafia, Role::Goon);
    store.aim(sheriff, Some(goon));
    store.aim(doctor, Some(sheriff));
    let p = store.get(sheriff);
    assert!(p.cop.as_ref().unwrap().active());
    assert!(p.detective.as_ref().unwrap().active());
    assert!(store.get(doctor).save.as_ref().unwrap().active());
    // the goon was never given a target: the kill rests
    assert!(store.get(goon).target.0.is_none());
    assert!(!store.get(goon).kill.as_ref().unwrap().active());
    // a death that is processed takes the target away; the save decides by the target alone
    store.strike(doctor, Night::new(1));
    store.bury(doctor);
    assert!(store.get(doctor).target.0.is_none());
    SaveActions.run(&mut store);
    assert_eq!(result_of(&store, doctor), fail());
    assert!(store.saved(sheriff).is_none());
}
