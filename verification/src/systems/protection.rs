//! Protection resolution.

use vstd::prelude::*;
use crate::components::{NightResult, PlayerRef, ResultModel};
use crate::store::{PlayerStore, StoreModel};
use crate::systems::{
    lemma_marks_done, lemma_marks_step, marks, marks_upto, plain, record, shown, with_outcome,
};

verus! {

/// The player on whom the save of player `i` lands, if it lands: `i` holds
/// a save, is not blocked, and has a target who is not macho. Nothing else decides.
pub open spec fn save_aim(s: StoreModel, i: int) -> Option<PlayerRef> {
    let p = s.players[i];
    match p.target {
        Some(t) => if p.save is Some && s.has(t) && !s.blocked.contains(i) && !s.at(t).macho {
            Some(t)
        } else {
            None
        },
        None => None,
    }
}

/// Whether the save of player `i` lands on player `j`.
pub open spec fn save_lands(s: StoreModel, i: int, j: int) -> bool {
    &&& 0 <= i < s.len()
    &&& save_aim(s, i) matches Some(t)
    &&& t.0 == j
}

/// What the save comes to for player `i`, if `i` holds one: it succeeds
/// exactly when it lands on somebody.
pub open spec fn save_outcome(s: StoreModel, i: int) -> Option<ResultModel> {
    if s.players[i].save is Some {
        Some(plain(save_aim(s, i) is Some))
    } else {
        None
    }
}

/// The players on whom a save lands.
pub open spec fn save_marks(s: StoreModel) -> Set<int> {
    marks(|i: int, j: int| save_lands(s, i, j))
}

/// The store once saves are resolved: whoever a save lands on is
/// protected for the night, and each doctor has a result.
pub open spec fn saves_resolved(s: StoreModel) -> StoreModel {
    StoreModel {
        players: Seq::new(s.players.len(), |i: int| with_outcome(s.players[i], save_outcome(s, i))),
        saved: s.saved.union(save_marks(s)),
        ..s
    }
}

/// Process all save actions and give results as a `NightResult`.
pub struct SaveActions;

impl SaveActions {
    fn resolve(store: &mut PlayerStore, i: usize) -> (outcome: Option<NightResult>)
        requires
            old(store).wf(),
            i < old(store)@.len(),
        ensures
            final(store).wf(),
            final(store)@ == (StoreModel {
                saved: match save_aim(old(store)@, i as int) {
                    Some(t) => old(store)@.saved.insert(t.0 as int),
                    None => old(store)@.saved,
                },
                ..old(store)@
            }),
            shown(outcome) == save_outcome(old(store)@, i as int),
    {
        let actor = PlayerRef(i);
        let player = store.get(actor);
        if player.save.is_some() {
            let target = player.target.0;
            let mut landed = false;
            proof {
                assert(store@.sound(store@.players[i as int]));
            }
            match target {
                Some(t) => {
                    if store.blocked(actor).is_none() && store.get(t).macho.is_none() {
                        store.save(t);
                        landed = true;
                    }
                },
                None => {},
            }
            Some(NightResult::plain(landed))
        } else {
            None
        }
    }

    pub fn run(&mut self, store: &mut PlayerStore)
        requires
            old(store).wf(),
        ensures
            final(store).wf(),
            final(store)@ == saves_resolved(old(store)@),
    {
        let ghost before = store@;
        let ghost lands = |i: int, j: int| save_lands(before, i, j);
        let n = store.len();
        let mut outcomes: Vec<Option<NightResult>> = Vec::new();
        let mut i: usize = 0;
        proof {
            lemma_marks_done(lands, n as int);
            assert(before.saved.union(Set::<int>::empty()) =~= before.saved);
        }
        while i < n
            invariant
                i <= n,
                n == before.len(),
                store.wf(),
                lands == |i: int, j: int| save_lands(before, i, j),
                store@ == (StoreModel {
                    saved: before.saved.union(marks_upto(lands, i as int)),
                    ..before
                }),
                outcomes.len() == i,
                forall|k: int|
                    0 <= k < i ==> shown(#[trigger] outcomes[k]) == save_outcome(before, k),
            decreases n - i,
        {
            let ghost marked = marks_upto(lands, i as int);
            proof {
                lemma_marks_step(lands, save_aim(before, i as int), i as int);
                assert(save_aim(store@, i as int) == save_aim(before, i as int));
                match save_aim(before, i as int) {
                    Some(t) => {
                        assert(before.saved.union(marked).insert(t.0 as int) =~= before.saved.union(
                            marked.insert(t.0 as int),
                        ));
                    },
                    None => {},
                }
            }
            let outcome = Self::resolve(store, i);
            outcomes.push(outcome);
            i = i + 1;
        }
        record(store, outcomes);
        proof {
            assert(store@.players =~= saves_resolved(before).players);
        }
    }
}

} // verus!
