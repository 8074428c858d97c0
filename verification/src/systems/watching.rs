//! Watch resolution.

use vstd::prelude::*;
use vstd::string::*;
use crate::components::{NightResult, PlayerRef, ResultModel};
use crate::entities::PlayerModel;
use crate::store::{PlayerStore, StoreModel};
use crate::systems::{alive, engaged, engagement, plain, record, shown, with_outcome};

verus! {

/// Whether `p` is a living player who went to `host` tonight.
pub open spec fn visits(p: PlayerModel, host: PlayerRef) -> bool {
    alive(p) && p.position == Some(host)
}

/// The names of those among the players before `upto` who visit `host`, in the order of the store.
pub open spec fn visitors(s: StoreModel, host: PlayerRef, upto: int) -> Seq<Seq<char>>
    decreases upto,
{
    if upto <= 0 {
        Seq::empty()
    } else {
        let earlier = visitors(s, host, upto - 1);
        if visits(s.players[upto - 1], host) {
            earlier.push(s.players[upto - 1].name)
        } else {
            earlier
        }
    }
}

/// What stands between two names of a list.
pub open spec fn separator() -> Seq<char> {
    ", "@
}

/// The names written one after the other, with a comma and a space between two of them.
pub open spec fn listed(names: Seq<Seq<char>>) -> Seq<char>
    decreases names.len(),
{
    if names.len() == 0 {
        Seq::empty()
    } else if names.len() == 1 {
        names[0]
    } else {
        listed(names.drop_last()) + separator() + names.last()
    }
}

/// What watching comes to for player `i`, if `i` holds a watch. It fails
/// when the watch is not active, when `i` is blocked and when there is no
/// target; otherwise it discloses everybody who visits the target.
pub open spec fn watch_outcome(s: StoreModel, i: int) -> Option<ResultModel> {
    let p = s.players[i];
    if p.watch is Some {
        Some(
            match engaged(p, p.watch) {
                Some(t) => if s.blocked.contains(i) {
                    plain(false)
                } else {
                    ResultModel { success: true, val: listed(visitors(s, t, s.len())) }
                },
                None => plain(false),
            },
        )
    } else {
        None
    }
}

/// The store once watches are resolved: each watcher has a result, nothing else changes.
pub open spec fn watches_resolved(s: StoreModel) -> StoreModel {
    StoreModel {
        players: Seq::new(s.players.len(), |i: int| with_outcome(s.players[i], watch_outcome(s, i))),
        ..s
    }
}

/// Process all watch actions and give results as a `NightResult`.
pub struct WatchActions;

impl WatchActions {
    /// The names of the living players who went to `host`, as one text.
    pub fn visitor_names(store: &PlayerStore, host: PlayerRef) -> (text: String)
        requires
            store.wf(),
        ensures
            text@ == listed(visitors(store@, host, store@.len())),
    {
        let n = store.len();
        let mut text = String::new();
        let mut first = true;
        let mut i: usize = 0;
        while i < n
            invariant
                i <= n,
                n == store@.len(),
                first == (visitors(store@, host, i as int).len() == 0),
                text@ == listed(visitors(store@, host, i as int)),
            decreases n - i,
        {
            let player = store.get(PlayerRef(i));
            let here = match player.position.0 {
                Some(at) => at.0 == host.0,
                None => false,
            };
            if player.long_dead.is_none() && here {
                let ghost earlier = visitors(store@, host, i as int);
                let ghost now = visitors(store@, host, i as int + 1);
                proof {
                    assert(now == earlier.push(player@.name));
                    assert(now.drop_last() =~= earlier);
                    assert(now.last() == player@.name);
                    if earlier.len() == 0 {
                        assert(text@ =~= Seq::<char>::empty());
                    }
                }
                if !first {
                    text.append(", ");
                }
                text.append(player.name.0.as_str());
                first = false;
                proof {
                    if earlier.len() == 0 {
                        assert(text@ =~= player@.name);
                    }
                }
            }
            i = i + 1;
        }
        text
    }

    fn resolve(store: &PlayerStore, i: usize) -> (outcome: Option<NightResult>)
        requires
            store.wf(),
            i < store@.len(),
        ensures
            shown(outcome) == watch_outcome(store@, i as int),
    {
        let actor = PlayerRef(i);
        let player = store.get(actor);
        if player.watch.is_some() {
            // if watcher is blocked or if there is no target, fail
            match engagement(player, &player.watch) {
                Some(t) => {
                    if store.blocked(actor).is_some() {
                        Some(NightResult::plain(false))
                    } else {
                        Some(NightResult { success: true, val: Self::visitor_names(store, t) })
                    }
                },
                None => Some(NightResult::plain(false)),
            }
        } else {
            None
        }
    }

    pub fn run(&mut self, store: &mut PlayerStore)
        requires
            old(store).wf(),
        ensures
            final(store).wf(),
            final(store)@ == watches_resolved(old(store)@),
    {
        let n = store.len();
        let mut outcomes: Vec<Option<NightResult>> = Vec::new();
        let mut i: usize = 0;
        while i < n
            invariant
                i <= n,
                n == store@.len(),
                store.wf(),
                outcomes.len() == i,
                forall|k: int| 0 <= k < i ==> shown(#[trigger] outcomes[k]) == watch_outcome(store@, k),
            decreases n - i,
        {
            let outcome = Self::resolve(store, i);
            outcomes.push(outcome);
            i = i + 1;
        }
        record(store, outcomes);
        proof {
            assert(store@.players =~= watches_resolved(old(store)@).players);
        }
    }
}

} // verus!
