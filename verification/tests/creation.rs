use scumsim::components::actions::{Action, Cop, Kill};
use scumsim::components::attributes::Innocence;
use scumsim::components::{Faction, Modifier, PlayerRef, Role};
use scumsim::entities::{create_player, give_modifiers, give_role, Player};
use scumsim::resources::{CurrentNight, Night};
use scumsim::store::PlayerStore;

fn one(faction: Faction, role: Role, modifiers: Vec<Modifier>) -> (PlayerStore, PlayerRef) {
    let mut store = PlayerStore::new();
    let r = create_player(&mut store, String::from("solo"), faction, role, modifiers);
    (store, r)
}

#[test]
fn night_holds_its_number() {
    assert_eq!(Night::new(0).get(), 0);
    assert_eq!(Night::new(7).get(), 7);
    assert_eq!(Night::new(255).get(), 255);
    assert_eq!(Night::default().get(), 0);
    assert_eq!(CurrentNight::default().0.get(), 0);
}

#[test]
fn new_store_is_empty() {
    let store = PlayerStore::new();
    assert_eq!(store.len(), 0);
    assert!(!store.contains(PlayerRef(0)));
}

#[test]
fn handles_count_up_from_zero() {
    let mut store = PlayerStore::new();
    let a = create_player(&mut store, String::from("a"), Faction::Town, Role::Vanilla, vec![]);
    let b = create_player(&mut store, String::from("b"), Faction::Mafia, Role::Goon, vec![]);
    let c = create_player(&mut store, String::from("c"), Faction::Town, Role::Cop, vec![]);
    assert_eq!(a, PlayerRef(0));
    assert_eq!(b, PlayerRef(1));
    assert_eq!(c, PlayerRef(2));
    assert_eq!(store.len(), 3);
    assert!(store.contains(c));
    assert!(!store.contains(PlayerRef(3)));
    assert_eq!(store.get(a).name.0, "a");
    assert_eq!(store.get(b).name.0, "b");
    assert_eq!(store.get(c).name.0, "c");
}

#[test]
fn fresh_player_is_at_home_alive_and_unaffected() {
    let (store, r) = one(Faction::Town, Role::Doctor, vec![]);
    let p = store.get(r);
    assert!(p.target.0.is_none());
    assert!(p.position.0.is_none());
    assert!(p.dead.is_none());
    assert!(p.long_dead.is_none());
    assert!(p.result.is_none());
    assert!(store.blocked(r).is_none());
    assert!(store.saved(r).is_none());
}

#[test]
fn town_vanilla_has_nothing_but_a_faction() {
    let (store, r) = one(Faction::Town, Role::Vanilla, vec![]);
    let p = store.get(r);
    assert_eq!(p.faction, Faction::Town);
    assert_eq!(p.innocence, Innocence::Innocent);
    assert_eq!(p.role, Role::Vanilla);
    assert!(p.visiting.is_none());
    assert!(p.gun.is_none());
    assert!(p.cop.is_none() && p.detective.is_none() && p.track.is_none());
    assert!(p.watch.is_none() && p.block.is_none() && p.save.is_none() && p.kill.is_none());
    assert!(p.undetectable.is_none() && p.uncoppable.is_none() && p.untrackable.is_none());
}

#[test]
fn mafia_vanilla_is_guilty() {
    let (store, r) = one(Faction::Mafia, Role::Vanilla, vec![]);
    assert_eq!(store.get(r).faction, Faction::Mafia);
    assert_eq!(store.get(r).innocence, Innocence::Guilty);
}

#[test]
fn cop_visits_with_a_gun_and_an_idle_action() {
    let (store, r) = one(Faction::Town, Role::Cop, vec![]);
    let p = store.get(r);
    assert!(p.visiting.is_some());
    assert!(p.gun.is_some());
    let cop = p.cop.as_ref().unwrap();
    assert!(!cop.active());
    assert!(cop.target().is_none());
    assert!(p.detective.is_none());
}

#[test]
fn sheriff_is_cop_and_detective() {
    let (store, r) = one(Faction::Town, Role::Sheriff, vec![]);
    let p = store.get(r);
    assert_eq!(p.role, Role::Sheriff);
    assert!(p.cop.is_some());
    assert!(p.detective.is_some());
    assert!(p.visiting.is_some());
    assert!(p.gun.is_some());
}

#[test]
fn each_single_action_role_gets_its_action() {
    let (s, r) = one(Faction::Town, Role::Detective, vec![]);
    assert!(s.get(r).detective.is_some() && s.get(r).gun.is_some());
    let (s, r) = one(Faction::Town, Role::Tracker, vec![]);
    assert!(s.get(r).track.is_some() && s.get(r).gun.is_none() && s.get(r).visiting.is_some());
    let (s, r) = one(Faction::Town, Role::Watcher, vec![]);
    assert!(s.get(r).watch.is_some() && s.get(r).gun.is_none() && s.get(r).visiting.is_some());
    let (s, r) = one(Faction::Mafia, Role::Roleblocker, vec![]);
    assert!(s.get(r).block.is_some() && s.get(r).gun.is_none() && s.get(r).visiting.is_some());
    assert_eq!(s.get(r).faction, Faction::Mafia);
    let (s, r) = one(Faction::Town, Role::Doctor, vec![]);
    assert!(s.get(r).save.is_some() && s.get(r).gun.is_none() && s.get(r).visiting.is_some());
}

#[test]
fn town_goon_becomes_mafia_and_keeps_the_verdict_of_the_faction_given() {
    let (store, r) = one(Faction::Town, Role::Goon, vec![]);
    let p = store.get(r);
    assert_eq!(p.faction, Faction::Mafia);
    assert_eq!(p.innocence, Innocence::Innocent);
    assert!(p.kill.is_some());
    assert!(p.gun.is_some());
    assert!(p.visiting.is_some());
}

#[test]
fn mafia_goon_is_guilty() {
    let (store, r) = one(Faction::Mafia, Role::Goon, vec![]);
    assert_eq!(store.get(r).faction, Faction::Mafia);
    assert_eq!(store.get(r).innocence, Innocence::Guilty);
}

#[test]
fn godfather_is_mafia_reads_innocent_and_is_undetectable() {
    for faction in [Faction::Town, Faction::Mafia] {
        let (store, r) = one(faction, Role::Godfather, vec![]);
        let p = store.get(r);
        assert_eq!(p.faction, Faction::Mafia);
        assert_eq!(p.innocence, Innocence::Innocent);
        assert!(p.undetectable.is_some());
        assert!(p.uncoppable.is_none());
        assert!(p.untrackable.is_none());
        assert!(p.kill.is_some());
        assert!(p.gun.is_none());
        assert!(p.visiting.is_some());
    }
}

#[test]
fn modifiers_leave_markers_and_keep_their_order() {
    let (store, r) =
        one(Faction::Town, Role::Vanilla, vec![Modifier::Macho, Modifier::Breakthrough, Modifier::Macho]);
    let p = store.get(r);
    assert_eq!(p.modifiers.0, vec![Modifier::Macho, Modifier::Breakthrough, Modifier::Macho]);
    assert!(p.macho.is_some());
    assert!(p.breakthrough.is_some());
    let (store, r) = one(Faction::Town, Role::Vanilla, vec![Modifier::Breakthrough]);
    assert!(store.get(r).breakthrough.is_some());
    assert!(store.get(r).macho.is_none());
    let (store, r) = one(Faction::Town, Role::Vanilla, vec![]);
    assert!(store.get(r).breakthrough.is_none());
    assert!(store.get(r).macho.is_none());
    assert!(store.get(r).modifiers.0.is_empty());
}

#[test]
fn builder_steps_compose_like_creation() {
    let p = Player::base_player(String::from("x"));
    assert_eq!(p.name.0, "x");
    assert_eq!(p.role, Role::Vanilla);
    let p = p.faction(Faction::Mafia);
    assert_eq!(p.innocence, Innocence::Guilty);
    let p = give_role(p, Role::Doctor);
    assert_eq!(p.role, Role::Doctor);
    assert_eq!(p.faction, Faction::Mafia);
    assert!(p.save.is_some());
    let p = give_modifiers(p, vec![Modifier::Macho]);
    assert!(p.macho.is_some());
    assert_eq!(p.modifiers.0, vec![Modifier::Macho]);
    let p = p.breakthrough();
    assert!(p.breakthrough.is_some());
}

#[test]
fn action_records_start_idle_and_follow_the_aim() {
    let mut cop = Cop::new();
    assert!(!cop.active());
    assert!(cop.target().is_none());
    cop.aim(Some(PlayerRef(4)));
    assert!(cop.active());
    assert_eq!(*cop.target(), Some(PlayerRef(4)));
    cop.aim(None);
    assert!(!cop.active());
    assert!(cop.target().is_none());
    let kill = Kill::new();
    assert!(!kill.active());
}

#[test]
fn texts_of_roles_modifiers_and_verdicts() {
    assert_eq!(Role::Vanilla.to_string(), "Vanilla");
    assert_eq!(Role::Cop.to_string(), "Cop");
    assert_eq!(Role::Sheriff.to_string(), "Sheriff");
    assert_eq!(Role::Detective.to_string(), "Detective");
    assert_eq!(Role::Tracker.to_string(), "Tracker");
    assert_eq!(Role::Watcher.to_string(), "Watcher");
    assert_eq!(Role::Roleblocker.to_string(), "Roleblocker");
    assert_eq!(Role::Doctor.to_string(), "Doctor");
    assert_eq!(Role::Goon.to_string(), "Goon");
    assert_eq!(Role::Godfather.to_string(), "Godfather");
    assert_eq!(Modifier::Breakthrough.to_string(), "Breakthrough");
    assert_eq!(Modifier::Macho.to_string(), "Macho");
    assert_eq!(Innocence::Innocent.to_string(), "Innocent");
    assert_eq!(Innocence::Guilty.to_string(), "Guilty");
}

#[test]
fn find_living_takes_the_first_living_player_of_that_name() {
    let mut store = PlayerStore::new();
    let a = create_player(&mut store, String::from("twin"), Faction::Town, Role::Vanilla, vec![]);
    let b = create_player(&mut store, String::from("twin"), Faction::Town, Role::Vanilla, vec![]);
    assert_eq!(store.find_living(&String::from("twin")), Some(a));
    assert_eq!(store.find_living(&String::from("nobody here")), None);
    store.strike(a, Night::new(1));
    // dead this night, not yet long dead: still found
    assert_eq!(store.find_living(&String::from("twin")), Some(a));
    store.bury(a);
    assert_eq!(store.find_living(&String::from("twin")), Some(b));
}
