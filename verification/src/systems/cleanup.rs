//! The end of a night: effects are lifted, deaths are processed, the night
//! counter advances.

use vstd::prelude::*;
use crate::components::PlayerRef;
use crate::entities::PlayerModel;
use crate::resources::{CurrentNight, Night};
use crate::store::{PlayerStore, StoreModel, buried};
use crate::systems::{lemma_rewritten_start, lemma_rewritten_step, rewritten};

verus! {

/// Player `i` once deaths are processed: whoever died and is not long dead
/// yet becomes long dead and loses their target.
pub open spec fn laid_to_rest(s: StoreModel, i: int) -> PlayerModel {
    let p = s.players[i];
    if p.dead is Some && !p.long_dead {
        buried(p)
    } else {
        p
    }
}

/// The store once deaths are processed.
pub open spec fn deaths_processed(s: StoreModel) -> StoreModel {
    StoreModel { players: Seq::new(s.players.len(), |i: int| laid_to_rest(s, i)), ..s }
}

/// Make the dead people (`Dead`) `LongDead` and set `Target`s of dead people to `None`.
pub struct ProcessDeaths;

impl ProcessDeaths {
    pub fn run(&mut self, store: &mut PlayerStore)
        requires
            old(store).wf(),
        ensures
            final(store).wf(),
            final(store)@ == deaths_processed(old(store)@),
    {
        let ghost before = store@;
        let ghost f = |k: int| laid_to_rest(before, k);
        let n = store.len();
        let mut i: usize = 0;
        proof {
            lemma_rewritten_start(before, f);
        }
        while i < n
            invariant
                i <= n,
                n == before.len(),
                before.valid(),
                store.wf(),
                f == |k: int| laid_to_rest(before, k),
                store@ == rewritten(before, f, i as int),
            decreases n - i,
        {
            proof {
                lemma_rewritten_step(before, f, i as int);
            }
            let actor = PlayerRef(i);
            let player = store.get(actor);
            if player.dead.is_some() && player.long_dead.is_none() {
                store.bury(actor);
            }
            i = i + 1;
        }
        proof {
            assert(store@.players =~= deaths_processed(before).players);
        }
    }
}

/// The store once the effects of the night are lifted.
pub open spec fn effects_removed(s: StoreModel) -> StoreModel {
    StoreModel { blocked: Set::<int>::empty(), saved: Set::<int>::empty(), ..s }
}

/// Remove Blocked, Saved, etc. from anyone who received it tonight.
pub struct RemoveEffects;

impl RemoveEffects {
    pub fn run(&mut self, store: &mut PlayerStore)
        requires
            old(store).wf(),
        ensures
            final(store).wf(),
            final(store)@ == effects_removed(old(store)@),
            final(store)@.settled(),
    {
        store.clear_effects();
    }
}

/// Advance to the next Night.
pub struct FinishNight;

impl FinishNight {
    pub fn run(&mut self, night: &mut CurrentNight)
        requires
            old(night).0@ < u8::MAX,
        ensures
            final(night).0@ == old(night).0@ + 1,
    {
        night.0 = Night::new(night.0.get() + 1);
    }
}

} // verus!
