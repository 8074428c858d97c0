//! Elimination resolution.

use vstd::prelude::*;
use crate::components::{NightResult, PlayerRef, ResultModel};
use crate::entities::PlayerModel;
use crate::resources::{CurrentNight, Night};
use crate::store::{PlayerStore, StoreModel, struck};
use crate::systems::{engaged, engagement, plain, record, shown, with_outcome};

verus! {

/// The player on whom the kill of player `i` lands on the given night, if it
/// lands: it is not the setup night, `i` uses a kill on somebody, and that
/// player is not protected.
pub open spec fn kill_aim(s: StoreModel, night: u8, i: int) -> Option<PlayerRef> {
    match engaged(s.players[i], s.players[i].kill) {
        Some(t) => if night > 0 && s.has(t) && !s.saved.contains(t.0 as int) {
            Some(t)
        } else {
            None
        },
        None => None,
    }
}

/// Whether the kill of player `i` lands on player `j` on the given night.
pub open spec fn kill_lands(s: StoreModel, night: u8, i: int, j: int) -> bool {
    &&& 0 <= i < s.len()
    &&& kill_aim(s, night, i) matches Some(t)
    &&& t.0 == j
}

/// What killing comes to for player `i`, if `i` holds a kill: it succeeds
/// exactly when it lands on somebody.
pub open spec fn kill_outcome(s: StoreModel, night: u8, i: int) -> Option<ResultModel> {
    if s.players[i].kill is Some {
        Some(plain(kill_aim(s, night, i) is Some))
    } else {
        None
    }
}

/// The night of death of player `j` once kills are resolved: a death that
/// stands already stays; otherwise `j` dies tonight if a kill lands on them.
pub open spec fn death_resolved(s: StoreModel, night: u8, j: int) -> Option<u8> {
    if s.players[j].dead is None && exists|i: int| kill_lands(s, night, i, j) {
        Some(night)
    } else {
        s.players[j].dead
    }
}

/// The store once kills are resolved on the given night.
pub open spec fn kills_resolved(s: StoreModel, night: u8) -> StoreModel {
    StoreModel {
        players: Seq::new(
            s.players.len(),
            |j: int|
                with_outcome(
                    PlayerModel { dead: death_resolved(s, night, j), ..s.players[j] },
                    kill_outcome(s, night, j),
                ),
        ),
        ..s
    }
}

/// The night of death of player `j` once the kills of the players before
/// `upto` are resolved, one after the other.
spec fn death_upto(s: StoreModel, night: u8, upto: int, j: int) -> Option<u8>
    decreases upto,
{
    if upto <= 0 {
        s.players[j].dead
    } else {
        let so_far = death_upto(s, night, upto - 1, j);
        if so_far is None && kill_lands(s, night, upto - 1, j) {
            Some(night)
        } else {
            so_far
        }
    }
}

/// The store once the players before `upto` have struck, one after the other.
spec fn strikes_upto(s: StoreModel, night: u8, upto: int) -> StoreModel {
    StoreModel {
        players: Seq::new(
            s.players.len(),
            |j: int| PlayerModel { dead: death_upto(s, night, upto, j), ..s.players[j] },
        ),
        ..s
    }
}

/// What a kill that lands on `aim` does to a store.
spec fn strike_step(s: StoreModel, aim: Option<PlayerRef>, night: u8) -> StoreModel {
    match aim {
        Some(t) => s.with_player(t.0 as int, struck(s.at(t), night)),
        None => s,
    }
}

proof fn lemma_death_upto(s: StoreModel, night: u8, upto: int, j: int)
    requires
        0 <= upto,
    ensures
        death_upto(s, night, upto, j) == if s.players[j].dead is None && exists|i: int|
            i < upto && kill_lands(s, night, i, j) {
            Some(night)
        } else {
            s.players[j].dead
        },
    decreases upto,
{
    if upto > 0 {
        lemma_death_upto(s, night, upto - 1, j);
        if kill_lands(s, night, upto - 1, j) {
            assert(upto - 1 < upto && kill_lands(s, night, upto - 1, j));
        }
        if exists|i: int| i < upto - 1 && kill_lands(s, night, i, j) {
            let k: int = choose|i: int| i < upto - 1 && kill_lands(s, night, i, j);
            assert(k < upto && kill_lands(s, night, k, j));
        }
    }
}

proof fn lemma_strike_step(s: StoreModel, night: u8, i: int)
    requires
        s.valid(),
        0 <= i < s.len(),
    ensures
        strike_step(strikes_upto(s, night, i), kill_aim(s, night, i), night) == strikes_upto(
            s,
            night,
            i + 1,
        ),
        kill_aim(strikes_upto(s, night, i), night, i) == kill_aim(s, night, i),
        kill_outcome(strikes_upto(s, night, i), night, i) == kill_outcome(s, night, i),
{
    let c = strikes_upto(s, night, i);
    let d = strikes_upto(s, night, i + 1);
    let e = strike_step(c, kill_aim(s, night, i), night);
    assert(s.sound(s.players[i]));
    assert(e.players =~= d.players);
}

proof fn lemma_strikes_start(s: StoreModel, night: u8)
    ensures
        strikes_upto(s, night, 0) == s,
{
    assert(strikes_upto(s, night, 0).players =~= s.players);
}

proof fn lemma_kills_done(s: StoreModel, night: u8, outcomes: Seq<Option<ResultModel>>)
    requires
        outcomes.len() == s.len(),
        forall|k: int| 0 <= k < s.len() ==> #[trigger] outcomes[k] == kill_outcome(s, night, k),
    ensures
        Seq::new(
            s.players.len(),
            |k: int| with_outcome(strikes_upto(s, night, s.len()).players[k], outcomes[k]),
        ) == kills_resolved(s, night).players,
{
    let c = strikes_upto(s, night, s.len());
    let d = kills_resolved(s, night);
    let r = Seq::new(s.players.len(), |k: int| with_outcome(c.players[k], outcomes[k]));
    assert forall|j: int| 0 <= j < s.len() implies #[trigger] r[j] == d.players[j] by {
        lemma_death_upto(s, night, s.len(), j);
        assert(outcomes[j] == kill_outcome(s, night, j));
        if exists|i: int| kill_lands(s, night, i, j) {
            let k: int = choose|i: int| kill_lands(s, night, i, j);
            assert(k < s.len() && kill_lands(s, night, k, j));
        }
    }
    assert(r =~= d.players);
}

/// Process all kill actions and give results as a `NightResult`.
pub struct KillActions;

impl KillActions {
    fn resolve(store: &mut PlayerStore, night: Night, i: usize) -> (outcome: Option<NightResult>)
        requires
            old(store).wf(),
            i < old(store)@.len(),
        ensures
            final(store).wf(),
            final(store)@ == strike_step(old(store)@, kill_aim(old(store)@, night@, i as int), night@),
            shown(outcome) == kill_outcome(old(store)@, night@, i as int),
    {
        let actor = PlayerRef(i);
        let player = store.get(actor);
        if player.kill.is_some() {
            let target = engagement(player, &player.kill);
            let mut landed = false;
            proof {
                assert(store@.sound(store@.players[i as int]));
            }
            match target {
                Some(t) => {
                    if night.get() != 0 && store.saved(t).is_none() {
                        store.strike(t, night);
                        landed = true;
                    }
                },
                None => {},
            }
            Some(NightResult::plain(landed))
        } else {
            None
        }
    }

    pub fn run(&mut self, store: &mut PlayerStore, night: &CurrentNight)
        requires
            old(store).wf(),
        ensures
            final(store).wf(),
            final(store)@ == kills_resolved(old(store)@, night.0@),
    {
        let ghost before = store@;
        let n = store.len();
        let mut outcomes: Vec<Option<NightResult>> = Vec::new();
        let mut i: usize = 0;
        proof {
            lemma_strikes_start(before, night.0@);
        }
        while i < n
            invariant
                i <= n,
                n == before.len(),
                before.valid(),
                store.wf(),
                store@ == strikes_upto(before, night.0@, i as int),
                outcomes.len() == i,
                forall|k: int|
                    0 <= k < i ==> shown(#[trigger] outcomes[k]) == kill_outcome(
                        before,
                        night.0@,
                        k,
                    ),
            decreases n - i,
        {
            proof {
                lemma_strike_step(before, night.0@, i as int);
            }
            let outcome = Self::resolve(store, night.0, i);
            outcomes.push(outcome);
            i = i + 1;
        }
        let ghost given = Seq::new(n as nat, |k: int| shown(outcomes[k]));
        record(store, outcomes);
        proof {
            lemma_kills_done(before, night.0@, given);
            assert(store@.players =~= Seq::new(
                before.players.len(),
                |k: int| with_outcome(strikes_upto(before, night.0@, n as int).players[k], given[k]),
            ));
        }
    }
}

} // verus!
