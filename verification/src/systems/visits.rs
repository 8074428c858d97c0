//! Visit update.

use vstd::prelude::*;
use crate::components::PlayerRef;
use crate::entities::PlayerModel;
use crate::store::{PlayerStore, StoreModel};
use crate::systems::{alive, lemma_rewritten_start, lemma_rewritten_step, rewritten};

verus! {

/// Where player `i` is tonight: a living player with a visiting role goes to
/// their target, or nowhere when blocked; everybody else stays where they were.
pub open spec fn moved(s: StoreModel, i: int) -> PlayerModel {
    let p = s.players[i];
    if alive(p) && p.visiting {
        PlayerModel {
            position: if s.blocked.contains(i) {
                None
            } else {
                p.target
            },
            ..p
        }
    } else {
        p
    }
}

/// The store once everybody has moved.
pub open spec fn visits_updated(s: StoreModel) -> StoreModel {
    StoreModel { players: Seq::new(s.players.len(), |i: int| moved(s, i)), ..s }
}

/// Update the location of anyone with an active visiting action.
pub struct UpdateVisits;

impl UpdateVisits {
    pub fn run(&mut self, store: &mut PlayerStore)
        requires
            old(store).wf(),
        ensures
            final(store).wf(),
            final(store)@ == visits_updated(old(store)@),
    {
        let ghost before = store@;
        let ghost f = |k: int| moved(before, k);
        let n = store.len();
        let mut i: usize = 0;
        proof {
            lemma_rewritten_start(before, f);
        }
        while i < n
            invariant
                i <= n,
                n == before.len(),
                before.valid(),
                store.wf(),
                f == |k: int| moved(before, k),
                store@ == rewritten(before, f, i as int),
            decreases n - i,
        {
            proof {
                lemma_rewritten_step(before, f, i as int);
                assert(before.sound(before.players[i as int]));
            }
            let actor = PlayerRef(i);
            let player = store.get(actor);
            if player.long_dead.is_none() && player.visiting.is_some() {
                let new_pos = if store.blocked(actor).is_some() {
                    None
                } else {
                    player.target.0
                };
                store.set_position(actor, new_pos);
            }
            i = i + 1;
        }
        proof {
            assert(store@.players =~= visits_updated(before).players);
        }
    }
}

} // verus!
