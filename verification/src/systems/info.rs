//! Information resolution: one rule for every action that discloses a fact
//! about its target, given the action, the fact and what defeats it.

use vstd::prelude::*;
use vstd::string::*;
use std::marker::PhantomData;
use crate::components::actions::{Cop, Detective, Track};
use crate::components::attributes::{
    ActionStopper, Innocence, Uncoppable, Undetectable, Untrackable,
};
use crate::components::{NightResult, PlayerRef, Position, ResultModel, Role};
use crate::entities::Capability;
use crate::store::{PlayerStore, StoreModel};
use crate::systems::{engaged, engagement, plain, record, shown, with_outcome};

verus! {

/// A fact about a player that an information action can disclose.
pub trait Information {
    /// The text that discloses the fact about `target`.
    spec fn told(s: StoreModel, target: PlayerRef) -> Seq<char>;

    fn tell(store: &PlayerStore, target: PlayerRef) -> (text: String)
        requires
            store.wf(),
            store@.has(target),
        ensures
            text@ == Self::told(store@, target),
    ;
}

impl Information for Innocence {
    open spec fn told(s: StoreModel, target: PlayerRef) -> Seq<char> {
        s.at(target).innocence.text()
    }

    fn tell(store: &PlayerStore, target: PlayerRef) -> (text: String) {
        store.get(target).innocence.to_string()
    }
}

impl Information for Role {
    open spec fn told(s: StoreModel, target: PlayerRef) -> Seq<char> {
        s.at(target).role.text()
    }

    fn tell(store: &PlayerStore, target: PlayerRef) -> (text: String) {
        store.get(target).role.to_string()
    }
}

/// The text for a player who stayed home.
pub open spec fn nowhere() -> Seq<char> {
    "nowhere"@
}

impl Information for Position {
    /// The name of the player that the target went to.
    open spec fn told(s: StoreModel, target: PlayerRef) -> Seq<char> {
        match s.at(target).position {
            Some(host) => s.at(host).name,
            None => nowhere(),
        }
    }

    fn tell(store: &PlayerStore, target: PlayerRef) -> (text: String) {
        proof {
            assert(store@.sound(store@.players[target.0 as int]));
        }
        match store.get(target).position.0 {
            Some(host) => store.get(host).name.0.clone(),
            None => String::from_str("nowhere"),
        }
    }
}

/// What an information action comes to for player `i`, if `i` holds the
/// action `A`. It fails when the action is not active, when `i` is blocked,
/// when there is no target, and when the target holds the stopper `S`;
/// otherwise it discloses the fact `I` about the target.
pub open spec fn info_outcome<A: Capability, I: Information, S: ActionStopper>(
    s: StoreModel,
    i: int,
) -> Option<ResultModel> {
    let p = s.players[i];
    if A::slot_of(p) is Some {
        Some(
            match engaged(p, A::slot_of(p)) {
                Some(t) => if s.blocked.contains(i) || S::stops(s.at(t)) {
                    plain(false)
                } else {
                    ResultModel { success: true, val: I::told(s, t) }
                },
                None => plain(false),
            },
        )
    } else {
        None
    }
}

/// The store once the information action `A` is resolved: each holder has a
/// result, nothing else changes.
pub open spec fn infos_resolved<A: Capability, I: Information, S: ActionStopper>(
    s: StoreModel,
) -> StoreModel {
    StoreModel {
        players: Seq::new(
            s.players.len(),
            |i: int| with_outcome(s.players[i], info_outcome::<A, I, S>(s, i)),
        ),
        ..s
    }
}

/// Process all actions of one kind that disclose a fact about their target,
/// and give results as a `NightResult`: `A` is the action, `I` the fact that
/// it discloses, `S` what defeats it.
pub struct InfoActions<A, I, S> {
    _action: PhantomData<A>,
    _info: PhantomData<I>,
    _stopper: PhantomData<S>,
}

impl<A: Capability, I: Information, S: ActionStopper> InfoActions<A, I, S> {
    pub fn new() -> (system: InfoActions<A, I, S>) {
        InfoActions { _action: PhantomData, _info: PhantomData, _stopper: PhantomData }
    }

    fn resolve(store: &PlayerStore, i: usize) -> (outcome: Option<NightResult>)
        requires
            store.wf(),
            i < store@.len(),
        ensures
            shown(outcome) == info_outcome::<A, I, S>(store@, i as int),
    {
        let actor = PlayerRef(i);
        let player = store.get(actor);
        let held = A::held_by(player);
        if held.is_some() {
            proof {
                assert(store@.sound(store@.players[i as int]));
            }
            // if the actor is blocked or if there is no target, fail
            match engagement(player, held) {
                Some(t) => {
                    if store.blocked(actor).is_some() || S::protects(store.get(t)) {
                        Some(NightResult::plain(false))
                    } else {
                        Some(NightResult { success: true, val: I::tell(store, t) })
                    }
                },
                None => Some(NightResult::plain(false)),
            }
        } else {
            None
        }
    }

    pub fn run(&mut self, store: &mut PlayerStore)
        requires
            old(store).wf(),
        ensures
            final(store).wf(),
            final(store)@ == infos_resolved::<A, I, S>(old(store)@),
    {
        let n = store.len();
        let mut outcomes: Vec<Option<NightResult>> = Vec::new();
        let mut i: usize = 0;
        while i < n
            invariant
                i <= n,
                n == store@.len(),
                store.wf(),
                outcomes.len() == i,
                forall|k: int|
                    0 <= k < i ==> shown(#[trigger] outcomes[k]) == info_outcome::<A, I, S>(
                        store@,
                        k,
                    ),
            decreases n - i,
        {
            let outcome = Self::resolve(store, i);
            outcomes.push(outcome);
            i = i + 1;
        }
        record(store, outcomes);
        proof {
            assert(store@.players =~= infos_resolved::<A, I, S>(old(store)@).players);
        }
    }
}

/// Process all cop actions and give results as a `NightResult`.
pub struct CopActions;

impl CopActions {
    pub fn run(&mut self, store: &mut PlayerStore)
        requires
            old(store).wf(),
        ensures
            final(store).wf(),
            final(store)@ == infos_resolved::<Cop, Innocence, Uncoppable>(old(store)@),
    {
        InfoActions::<Cop, Innocence, Uncoppable>::new().run(store);
    }
}

/// Process all detective actions and give results as a `NightResult`.
pub struct DetActions;

impl DetActions {
    pub fn run(&mut self, store: &mut PlayerStore)
        requires
            old(store).wf(),
        ensures
            final(store).wf(),
            final(store)@ == infos_resolved::<Detective, Role, Undetectable>(old(store)@),
    {
        InfoActions::<Detective, Role, Undetectable>::new().run(store);
    }
}

/// Process all track actions and give results as a `NightResult`.
pub struct TrackActions;

impl TrackActions {
    pub fn run(&mut self, store: &mut PlayerStore)
        requires
            old(store).wf(),
        ensures
            final(store).wf(),
            final(store)@ == infos_resolved::<Track, Position, Untrackable>(old(store)@),
    {
        InfoActions::<Track, Position, Untrackable>::new().run(store);
    }
}

} // verus!
