//! Block resolution.

use vstd::prelude::*;
use crate::components::{NightResult, PlayerRef, ResultModel};
use crate::store::{PlayerStore, StoreModel};
use crate::systems::{
    engaged, engagement, lemma_marks_done, lemma_marks_step, marks, marks_upto, plain, record, shown, with_outcome,
};

verus! {

/// The player on whom the block of player `i` lands, if it lands: `i` uses a
/// block on somebody who does not break through.
pub open spec fn block_aim(s: StoreModel, i: int) -> Option<PlayerRef> {
    match engaged(s.players[i], s.players[i].block) {
        Some(t) => if s.has(t) && !s.at(t).breakthrough {
            Some(t)
        } else {
            None
        },
        None => None,
    }
}

/// Whether the block of player `i` lands on player `j`.
pub open spec fn block_lands(s: StoreModel, i: int, j: int) -> bool {
    &&& 0 <= i < s.len()
    &&& block_aim(s, i) matches Some(t)
    &&& t.0 == j
}

/// What the block comes to for player `i`, if `i` holds one: it succeeds
/// exactly when it lands on somebody.
pub open spec fn block_outcome(s: StoreModel, i: int) -> Option<ResultModel> {
    if s.players[i].block is Some {
        Some(plain(block_aim(s, i) is Some))
    } else {
        None
    }
}

/// The players on whom a block lands.
pub open spec fn block_marks(s: StoreModel) -> Set<int> {
    marks(|i: int, j: int| block_lands(s, i, j))
}

/// The store once blocks are resolved: whoever a block lands on is
/// blocked for the night, and each blocker has a result.
pub open spec fn blocks_resolved(s: StoreModel) -> StoreModel {
    StoreModel {
        players: Seq::new(s.players.len(), |i: int| with_outcome(s.players[i], block_outcome(s, i))),
        blocked: s.blocked.union(block_marks(s)),
        ..s
    }
}

/// Process all block actions and give results as a `NightResult`.
pub struct BlockActions;

impl BlockActions {
    fn resolve(store: &mut PlayerStore, i: usize) -> (outcome: Option<NightResult>)
        requires
            old(store).wf(),
            i < old(store)@.len(),
        ensures
            final(store).wf(),
            final(store)@ == (StoreModel {
                blocked: match block_aim(old(store)@, i as int) {
                    Some(t) => old(store)@.blocked.insert(t.0 as int),
                    None => old(store)@.blocked,
                },
                ..old(store)@
            }),
            shown(outcome) == block_outcome(old(store)@, i as int),
    {
        let actor = PlayerRef(i);
        let player = store.get(actor);
        if player.block.is_some() {
            let target = engagement(player, &player.block);
            let mut landed = false;
            proof {
                assert(store@.sound(store@.players[i as int]));
            }
            match target {
                Some(t) => {
                    if store.get(t).breakthrough.is_none() {
                        store.block(t);
                        landed = true;
                    }
                },
                None => {},
            }
            Some(NightResult::plain(landed))
        } else {
            None
        }
    }

    pub fn run(&mut self, store: &mut PlayerStore)
        requires
            old(store).wf(),
        ensures
            final(store).wf(),
            final(store)@ == blocks_resolved(old(store)@),
    {
        let ghost before = store@;
        let ghost lands = |i: int, j: int| block_lands(before, i, j);
        let n = store.len();
        let mut outcomes: Vec<Option<NightResult>> = Vec::new();
        let mut i: usize = 0;
        proof {
            lemma_marks_done(lands, n as int);
            assert(before.blocked.union(Set::<int>::empty()) =~= before.blocked);
        }
        while i < n
            invariant
                i <= n,
                n == before.len(),
                store.wf(),
                lands == |i: int, j: int| block_lands(before, i, j),
                store@ == (StoreModel {
                    blocked: before.blocked.union(marks_upto(lands, i as int)),
                    ..before
                }),
                outcomes.len() == i,
                forall|k: int|
                    0 <= k < i ==> shown(#[trigger] outcomes[k]) == block_outcome(before, k),
            decreases n - i,
        {
            let ghost marked = marks_upto(lands, i as int);
            proof {
                lemma_marks_step(lands, block_aim(before, i as int), i as int);
                assert(block_aim(store@, i as int) == block_aim(before, i as int));
                match block_aim(before, i as int) {
                    Some(t) => {
                        assert(before.blocked.union(marked).insert(t.0 as int) =~= before.blocked.union(
                            marked.insert(t.0 as int),
                        ));
                    },
                    None => {},
                }
            }
            let outcome = Self::resolve(store, i);
            outcomes.push(outcome);
            i = i + 1;
        }
        record(store, outcomes);
        proof {
            assert(store@.players =~= blocks_resolved(before).players);
        }
    }
}

} // verus!
