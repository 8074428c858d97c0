//! What holds of every night, proved from what the phases are stated to do.

use vstd::prelude::*;
use crate::components::actions::{Cop, Detective, Track};
use crate::components::attributes::{
    ActionStopper, Innocence, Uncoppable, Undetectable, Untrackable,
};
use crate::components::{PlayerRef, Position, Role};
use crate::entities::Capability;
use crate::schedule::{NightModel, Phase, after, found_by, lemma_order_complete, night_resolved, order, step};
use crate::store::StoreModel;
use crate::systems::blocking::{block_lands, block_marks, blocks_resolved};
use crate::systems::info::{Information, infos_resolved};
use crate::systems::cleanup::deaths_processed;
use crate::systems::killing::kills_resolved;
use crate::systems::protection::{save_lands, save_marks, saves_resolved};
use crate::systems::reporting::holds_action;
use crate::systems::targets::targets_updated;
use crate::systems::visits::visits_updated;
use crate::systems::watching::watches_resolved;
use crate::systems::{engaged, plain};

verus! {

/// The state after the first `k` phases of a night.
pub open spec fn sofar(k: int, m: NightModel, choices: Seq<Option<PlayerRef>>) -> NightModel {
    after(order().take(k), m, choices)
}

/// Each phase of a night works on what the phases before it have left.
pub proof fn lemma_sofar_unfold(k: int, m: NightModel, choices: Seq<Option<PlayerRef>>)
    requires
        0 <= k < 13,
    ensures
        sofar(0, m, choices) == m,
        sofar(k + 1, m, choices) == step(order()[k], sofar(k, m, choices), choices),
        order()[k].rank() == k,
        sofar(13, m, choices) == night_resolved(m, choices),
{
    lemma_order_complete();
    assert(order().take(0) =~= Seq::<Phase>::empty());
    assert(order().take(k + 1).drop_last() =~= order().take(k));
    assert(order().take(k + 1).last() == order()[k]);
    assert(order().take(13) =~= order());
}

/// Which effects a phase leaves: only the resolution of blocks adds to the
/// blocked, only the resolution of protection adds to the protected, and the
/// cleanup lifts both from everybody.
pub proof fn lemma_step_effects(phase: Phase, m: NightModel, choices: Seq<Option<PlayerRef>>)
    ensures
        !(phase is Blockers) && !(phase is RemoveEffects) ==> step(phase, m, choices).store.blocked
            == m.store.blocked,
        !(phase is Doctors) && !(phase is RemoveEffects) ==> step(phase, m, choices).store.saved
            == m.store.saved,
        phase is RemoveEffects ==> step(phase, m, choices).store.settled(),
{
}

proof fn lemma_effects_sofar(k: int, m: NightModel, choices: Seq<Option<PlayerRef>>)
    requires
        0 <= k <= 13,
        m.store.settled(),
    ensures
        k <= 1 ==> sofar(k, m, choices).store.blocked == Set::<int>::empty(),
        k <= 7 ==> sofar(k, m, choices).store.saved == Set::<int>::empty(),
        k >= 11 ==> sofar(k, m, choices).store.settled(),
    decreases k,
{
    if k == 0 {
        lemma_sofar_unfold(0, m, choices);
    } else {
        lemma_effects_sofar(k - 1, m, choices);
        lemma_sofar_unfold(k - 1, m, choices);
        lemma_step_effects(order()[k - 1], sofar(k - 1, m, choices), choices);
    }
}

/// The effects of a night last one night. Of a night that begins with
/// nobody blocked and nobody protected: nobody is blocked when blocks are
/// about to be resolved, and nobody is protected when protection is about to
/// be resolved. Every night ends with nobody blocked and nobody protected,
/// so the next one begins that way.
pub proof fn lemma_effects_last_one_night(m: NightModel, choices: Seq<Option<PlayerRef>>)
    ensures
        m.store.settled() ==> found_by(Phase::Blockers, m, choices).store.blocked == Set::<
            int,
        >::empty(),
        m.store.settled() ==> found_by(Phase::Doctors, m, choices).store.saved == Set::<
            int,
        >::empty(),
        night_resolved(m, choices).store.settled(),
{
    if m.store.settled() {
        lemma_effects_sofar(1, m, choices);
        lemma_effects_sofar(7, m, choices);
    }
    lemma_sofar_unfold(10, m, choices);
    lemma_sofar_unfold(11, m, choices);
    lemma_sofar_unfold(12, m, choices);
    lemma_step_effects(Phase::RemoveEffects, sofar(10, m, choices), choices);
    lemma_step_effects(Phase::Deaths, sofar(11, m, choices), choices);
    lemma_step_effects(Phase::AdvanceNight, sofar(12, m, choices), choices);
}

/// Breaking through decides every block. Let player `i` hold an active block
/// and have the target `t`. If `t` breaks through, the block fails and does
/// not make `t` blocked: `t` is blocked afterwards only if `t` was before.
/// If `t` does not break through, the block succeeds and `t` is blocked.
pub proof fn lemma_breakthrough_decides_blocks(s: StoreModel, i: int, t: PlayerRef)
    requires
        s.valid(),
        0 <= i < s.len(),
        s.players[i].block matches Some(a) && a.active,
        s.players[i].target == Some(t),
    ensures
        s.at(t).breakthrough ==> blocks_resolved(s).players[i].result == Some(plain(false)),
        s.at(t).breakthrough ==> (blocks_resolved(s).blocked.contains(t.0 as int)
            <==> s.blocked.contains(t.0 as int)),
        !s.at(t).breakthrough ==> blocks_resolved(s).players[i].result == Some(plain(true)),
        !s.at(t).breakthrough ==> blocks_resolved(s).blocked.contains(t.0 as int),
{
    assert(s.sound(s.players[i]));
    if !s.at(t).breakthrough {
        let lands = |i: int, j: int| block_lands(s, i, j);
        assert(lands(i, t.0 as int));
        assert(block_marks(s).contains(t.0 as int));
    }
}

/// Being blocked decides before any stopper does: whoever holds the
/// information action `A` and is blocked gets a failure that discloses
/// nothing, whatever the target holds.
pub proof fn lemma_blocked_learns_nothing<A: Capability, I: Information, S: ActionStopper>(
    s: StoreModel,
    i: int,
)
    requires
        0 <= i < s.len(),
        A::slot_of(s.players[i]) is Some,
        s.blocked.contains(i),
    ensures
        infos_resolved::<A, I, S>(s).players[i].result == Some(plain(false)),
{
}

/// On the setup night no kill lands: everybody who holds a kill fails, and
/// nobody's death record changes.
pub proof fn lemma_no_kill_on_setup_night(s: StoreModel, i: int)
    requires
        0 <= i < s.len(),
    ensures
        s.players[i].kill is Some ==> kills_resolved(s, 0).players[i].result == Some(plain(false)),
        kills_resolved(s, 0).players[i].dead == s.players[i].dead,
{
}

/// Whether the store `b` has the dead of the store `a` as far as player `j`
/// goes: the number of players is the same, `j` is long dead in `b` if in
/// `a`, and a night of death that `j` has in `a` is the same in `b`.
pub open spec fn keeps_the_dead(a: StoreModel, b: StoreModel, j: int) -> bool {
    &&& b.len() == a.len()
    &&& a.players[j].long_dead ==> b.players[j].long_dead
    &&& a.players[j].dead is Some ==> b.players[j].dead == a.players[j].dead
}

proof fn lemma_targets_keep_the_dead(s: StoreModel, choices: Seq<Option<PlayerRef>>, j: int)
    requires
        0 <= j < s.len(),
    ensures
        keeps_the_dead(s, targets_updated(s, choices), j),
{
}

proof fn lemma_blocks_keep_the_dead(s: StoreModel, j: int)
    requires
        0 <= j < s.len(),
    ensures
        keeps_the_dead(s, blocks_resolved(s), j),
{
}

proof fn lemma_visits_keep_the_dead(s: StoreModel, j: int)
    requires
        0 <= j < s.len(),
    ensures
        keeps_the_dead(s, visits_updated(s), j),
{
}

proof fn lemma_infos_keep_the_dead<A: Capability, I: Information, S: ActionStopper>(
    s: StoreModel,
    j: int,
)
    requires
        0 <= j < s.len(),
    ensures
        keeps_the_dead(s, infos_resolved::<A, I, S>(s), j),
{
}

proof fn lemma_watches_keep_the_dead(s: StoreModel, j: int)
    requires
        0 <= j < s.len(),
    ensures
        keeps_the_dead(s, watches_resolved(s), j),
{
}

proof fn lemma_saves_keep_the_dead(s: StoreModel, j: int)
    requires
        0 <= j < s.len(),
    ensures
        keeps_the_dead(s, saves_resolved(s), j),
{
}

proof fn lemma_kills_keep_the_dead(s: StoreModel, night: u8, j: int)
    requires
        0 <= j < s.len(),
    ensures
        keeps_the_dead(s, kills_resolved(s, night), j),
{
}

proof fn lemma_burials_keep_the_dead(s: StoreModel, j: int)
    requires
        0 <= j < s.len(),
    ensures
        keeps_the_dead(s, deaths_processed(s), j),
{
}

/// What a phase leaves of the dead: the number of players stays, whoever is
/// long dead stays long dead, and a night of death, once set, stays as it is.
pub proof fn lemma_step_keeps_the_dead(
    phase: Phase,
    m: NightModel,
    choices: Seq<Option<PlayerRef>>,
    j: int,
)
    requires
        0 <= j < m.store.len(),
    ensures
        keeps_the_dead(m.store, step(phase, m, choices).store, j),
{
    match phase {
        Phase::Targets => lemma_targets_keep_the_dead(m.store, choices, j),
        Phase::Blockers => lemma_blocks_keep_the_dead(m.store, j),
        Phase::Visits => lemma_visits_keep_the_dead(m.store, j),
        Phase::Cops => lemma_infos_keep_the_dead::<Cop, Innocence, Uncoppable>(m.store, j),
        Phase::Detectives => lemma_infos_keep_the_dead::<Detective, Role, Undetectable>(
            m.store,
            j,
        ),
        Phase::Trackers => lemma_infos_keep_the_dead::<Track, Position, Untrackable>(m.store, j),
        Phase::Watchers => lemma_watches_keep_the_dead(m.store, j),
        Phase::Doctors => lemma_saves_keep_the_dead(m.store, j),
        Phase::Killers => lemma_kills_keep_the_dead(m.store, m.night, j),
        Phase::Results => {},
        Phase::RemoveEffects => {},
        Phase::Deaths => lemma_burials_keep_the_dead(m.store, j),
        Phase::AdvanceNight => {},
    }
}

proof fn lemma_sofar_keeps_the_dead(
    k: int,
    m: NightModel,
    choices: Seq<Option<PlayerRef>>,
    j: int,
)
    requires
        0 <= k <= 13,
        0 <= j < m.store.len(),
    ensures
        keeps_the_dead(m.store, sofar(k, m, choices).store, j),
    decreases k,
{
    if k == 0 {
        lemma_sofar_unfold(0, m, choices);
    } else {
        lemma_sofar_keeps_the_dead(k - 1, m, choices, j);
        lemma_sofar_unfold(k - 1, m, choices);
        lemma_step_keeps_the_dead(order()[k - 1], sofar(k - 1, m, choices), choices, j);
    }
}

/// Death is for good. Over a night, whoever is long dead stays long dead,
/// and a night of death, once set, never changes. As every night begins
/// where the one before ended, the same holds over any number of nights.
pub proof fn lemma_death_is_for_good(m: NightModel, choices: Seq<Option<PlayerRef>>, j: int)
    requires
        0 <= j < m.store.len(),
    ensures
        keeps_the_dead(m.store, night_resolved(m, choices).store, j),
{
    lemma_sofar_keeps_the_dead(13, m, choices, j);
    lemma_sofar_unfold(0, m, choices);
}

/// What a run of nights makes of a state: each night works on what the
/// night before has left, with what the players submitted for it.
pub open spec fn nights_resolved(m: NightModel, inputs: Seq<Seq<Option<PlayerRef>>>) -> NightModel
    decreases inputs.len(),
{
    if inputs.len() == 0 {
        m
    } else {
        night_resolved(nights_resolved(m, inputs.drop_last()), inputs.last())
    }
}

/// On every night of a run of nights that begins with nobody blocked and
/// nobody protected, nobody is blocked when blocks are about to be resolved,
/// and nobody is protected when protection is about to be resolved.
pub proof fn lemma_effects_never_leak(
    m: NightModel,
    inputs: Seq<Seq<Option<PlayerRef>>>,
    k: int,
)
    requires
        m.store.settled(),
        0 <= k < inputs.len(),
    ensures
        nights_resolved(m, inputs.take(k)).store.settled(),
        found_by(Phase::Blockers, nights_resolved(m, inputs.take(k)), inputs[k]).store.blocked
            == Set::<int>::empty(),
        found_by(Phase::Doctors, nights_resolved(m, inputs.take(k)), inputs[k]).store.saved
            == Set::<int>::empty(),
{
    let earlier = inputs.take(k);
    if k > 0 {
        lemma_effects_last_one_night(nights_resolved(m, earlier.drop_last()), earlier.last());
    }
    lemma_effects_last_one_night(nights_resolved(m, earlier), inputs[k]);
}

/// Death is for good over any number of nights: whoever is long dead stays
/// long dead, and a night of death, once set, never changes.
pub proof fn lemma_death_is_for_good_over_nights(
    m: NightModel,
    inputs: Seq<Seq<Option<PlayerRef>>>,
    j: int,
)
    requires
        0 <= j < m.store.len(),
    ensures
        keeps_the_dead(m.store, nights_resolved(m, inputs).store, j),
    decreases inputs.len(),
{
    if inputs.len() > 0 {
        lemma_death_is_for_good_over_nights(m, inputs.drop_last(), j);
        lemma_death_is_for_good(nights_resolved(m, inputs.drop_last()), inputs.last(), j);
    }
}

/// Whether player `j` is in the store `b` who they are in the store `a`:
/// name, faction, verdict, role, modifiers and every lasting capability are the same.
pub open spec fn keeps_identity(a: StoreModel, b: StoreModel, j: int) -> bool {
    let p = a.players[j];
    let q = b.players[j];
    &&& b.len() == a.len()
    &&& q.name == p.name
    &&& q.faction == p.faction
    &&& q.innocence == p.innocence
    &&& q.role == p.role
    &&& q.modifiers == p.modifiers
    &&& q.visiting == p.visiting
    &&& q.gun == p.gun
    &&& q.undetectable == p.undetectable
    &&& q.uncoppable == p.uncoppable
    &&& q.untrackable == p.untrackable
    &&& q.breakthrough == p.breakthrough
    &&& q.macho == p.macho
    &&& holds_action(q) == holds_action(p)
}

/// No phase changes who a player is: what creation settled is never revisited.
pub proof fn lemma_step_keeps_identity(
    phase: Phase,
    m: NightModel,
    choices: Seq<Option<PlayerRef>>,
    j: int,
)
    requires
        0 <= j < m.store.len(),
    ensures
        keeps_identity(m.store, step(phase, m, choices).store, j),
{
    match phase {
        Phase::Targets => {
            assert(keeps_identity(m.store, targets_updated(m.store, choices), j));
        },
        Phase::Blockers => {
            assert(keeps_identity(m.store, blocks_resolved(m.store), j));
        },
        Phase::Visits => {
            assert(keeps_identity(m.store, visits_updated(m.store), j));
        },
        Phase::Cops => {
            assert(keeps_identity(
                m.store,
                infos_resolved::<Cop, Innocence, Uncoppable>(m.store),
                j,
            ));
        },
        Phase::Detectives => {
            assert(keeps_identity(
                m.store,
                infos_resolved::<Detective, Role, Undetectable>(m.store),
                j,
            ));
        },
        Phase::Trackers => {
            assert(keeps_identity(
                m.store,
                infos_resolved::<Track, Position, Untrackable>(m.store),
                j,
            ));
        },
        Phase::Watchers => {
            assert(keeps_identity(m.store, watches_resolved(m.store), j));
        },
        Phase::Doctors => {
            assert(keeps_identity(m.store, saves_resolved(m.store), j));
        },
        Phase::Killers => {
            assert(keeps_identity(m.store, kills_resolved(m.store, m.night), j));
        },
        Phase::Results => {},
        Phase::RemoveEffects => {},
        Phase::Deaths => {
            assert(keeps_identity(m.store, deaths_processed(m.store), j));
        },
        Phase::AdvanceNight => {},
    }
}

proof fn lemma_sofar_keeps_identity(
    k: int,
    m: NightModel,
    choices: Seq<Option<PlayerRef>>,
    j: int,
)
    requires
        0 <= k <= 13,
        0 <= j < m.store.len(),
    ensures
        keeps_identity(m.store, sofar(k, m, choices).store, j),
    decreases k,
{
    if k == 0 {
        lemma_sofar_unfold(0, m, choices);
    } else {
        lemma_sofar_keeps_identity(k - 1, m, choices, j);
        lemma_sofar_unfold(k - 1, m, choices);
        lemma_step_keeps_identity(order()[k - 1], sofar(k - 1, m, choices), choices, j);
    }
}

/// A night changes nobody's identity.
pub proof fn lemma_night_keeps_identity(m: NightModel, choices: Seq<Option<PlayerRef>>, j: int)
    requires
        0 <= j < m.store.len(),
    ensures
        keeps_identity(m.store, night_resolved(m, choices).store, j),
{
    lemma_sofar_keeps_identity(13, m, choices, j);
    lemma_sofar_unfold(0, m, choices);
}

/// A night counts one night, as long as nights can be counted.
pub proof fn lemma_night_counts_one(m: NightModel, choices: Seq<Option<PlayerRef>>)
    requires
        m.night < u8::MAX,
    ensures
        night_resolved(m, choices).night == m.night + 1,
{
    lemma_sofar_night(12, m, choices);
    lemma_sofar_unfold(12, m, choices);
}

proof fn lemma_sofar_night(k: int, m: NightModel, choices: Seq<Option<PlayerRef>>)
    requires
        0 <= k <= 12,
    ensures
        sofar(k, m, choices).night == m.night,
    decreases k,
{
    if k == 0 {
        lemma_sofar_unfold(0, m, choices);
    } else {
        lemma_sofar_night(k - 1, m, choices);
        lemma_sofar_unfold(k - 1, m, choices);
    }
}

/// Processing deaths twice is processing them once.
pub proof fn lemma_deaths_are_processed_once(s: StoreModel)
    ensures
        deaths_processed(deaths_processed(s)) == deaths_processed(s),
{
    assert(deaths_processed(deaths_processed(s)).players =~= deaths_processed(s).players);
}

/// To hold an action and have a target is to use the action: in a valid
/// store each action that a player holds is engaged on the player's target.
pub proof fn lemma_holding_is_using(s: StoreModel, i: int)
    requires
        s.valid(),
        0 <= i < s.len(),
    ensures
        s.players[i].cop is Some ==> engaged(s.players[i], s.players[i].cop)
            == s.players[i].target,
        s.players[i].detective is Some ==> engaged(s.players[i], s.players[i].detective)
            == s.players[i].target,
        s.players[i].track is Some ==> engaged(s.players[i], s.players[i].track)
            == s.players[i].target,
        s.players[i].watch is Some ==> engaged(s.players[i], s.players[i].watch)
            == s.players[i].target,
        s.players[i].block is Some ==> engaged(s.players[i], s.players[i].block)
            == s.players[i].target,
        s.players[i].save is Some ==> engaged(s.players[i], s.players[i].save)
            == s.players[i].target,
        s.players[i].kill is Some ==> engaged(s.players[i], s.players[i].kill)
            == s.players[i].target,
{
    assert(s.sound(s.players[i]));
}

/// Who is blocked once blocks are resolved: whoever was before, and whoever
/// a block lands on; nobody else.
pub proof fn lemma_blocked_exactly(s: StoreModel, j: int)
    ensures
        blocks_resolved(s).blocked.contains(j) <==> (s.blocked.contains(j) || exists|i: int|
            block_lands(s, i, j)),
{
    let lands = |i: int, j: int| block_lands(s, i, j);
    if block_marks(s).contains(j) {
        let i: int = choose|i: int| #[trigger] lands(i, j);
        assert(block_lands(s, i, j));
    }
    if exists|i: int| block_lands(s, i, j) {
        let i: int = choose|i: int| block_lands(s, i, j);
        assert(lands(i, j));
    }
}

/// Who is protected once protection is resolved: whoever was before, and
/// whoever a save lands on; nobody else.
pub proof fn lemma_protected_exactly(s: StoreModel, j: int)
    ensures
        saves_resolved(s).saved.contains(j) <==> (s.saved.contains(j) || exists|i: int|
            save_lands(s, i, j)),
{
    let lands = |i: int, j: int| save_lands(s, i, j);
    if save_marks(s).contains(j) {
        let i: int = choose|i: int| #[trigger] lands(i, j);
        assert(save_lands(s, i, j));
    }
    if exists|i: int| save_lands(s, i, j) {
        let i: int = choose|i: int| save_lands(s, i, j);
        assert(lands(i, j));
    }
}

/// Three things alone decide a save. A player who holds a save succeeds
/// exactly when they have a target, are not blocked, and the target is not
/// macho; the target is then protected. The result discloses nothing.
/// Whether the save is marked as active plays no part.
pub proof fn lemma_save_is_decided(s: StoreModel, d: int)
    requires
        0 <= d < s.len(),
        s.knows(s.players[d].target),
        s.players[d].save is Some,
    ensures
        saves_resolved(s).players[d].result == Some(
            plain(
                s.players[d].target matches Some(t) && !s.blocked.contains(d) && !s.at(t).macho,
            ),
        ),
        s.players[d].target matches Some(t) ==> (!s.blocked.contains(d) && !s.at(t).macho
            ==> saves_resolved(s).saved.contains(t.0 as int)),
{
    match s.players[d].target {
        Some(t) => {
            if !s.blocked.contains(d) && !s.at(t).macho {
                assert(save_lands(s, d, t.0 as int));
                lemma_protected_exactly(s, t.0 as int);
            }
        },
        None => {},
    }
}

} // verus!
