//! The phases of a night. Each phase is a function from the store that it
//! finds to the store that it leaves, stated in its own module and computed
//! by a `run` that is proved to do just that.

use vstd::prelude::*;
use crate::components::actions::{Action, ActionModel};
use crate::components::{NightResult, PlayerRef, ResultModel, not_applicable};
use crate::entities::{Player, PlayerModel, slot};
use crate::store::{PlayerStore, StoreModel};

pub mod blocking;
pub mod cleanup;
pub mod info;
pub mod killing;
pub mod protection;
pub mod reporting;
pub mod targets;
pub mod visits;
pub mod watching;

pub use blocking::BlockActions;
pub use cleanup::{FinishNight, ProcessDeaths, RemoveEffects};
pub use info::{CopActions, DetActions, InfoActions, Information, TrackActions};
pub use killing::KillActions;
pub use protection::SaveActions;
pub use reporting::{PrintResults, Report, ReportModel};
pub use targets::UpdateTargets;
pub use visits::UpdateVisits;
pub use watching::WatchActions;

verus! {

/// A player is living until their death is a thing of the past.
pub open spec fn alive(p: PlayerModel) -> bool {
    !p.long_dead
}

/// The player on whom `p` uses the action in a slot tonight: the target of
/// `p`, provided that the slot holds an action and the action is active.
pub open spec fn engaged(p: PlayerModel, held: Option<ActionModel>) -> Option<PlayerRef> {
    match held {
        Some(a) => if a.active {
            p.target
        } else {
            None
        },
        None => None,
    }
}

/// A result that discloses nothing.
pub open spec fn plain(success: bool) -> ResultModel {
    ResultModel { success, val: not_applicable() }
}

pub(crate) fn engagement<A: Action>(player: &Player, held: &Option<A>) -> (t: Option<PlayerRef>)
    ensures
        t == engaged(player@, slot(*held)),
{
    match held {
        Some(a) => if a.active() {
            player.target.0
        } else {
            None
        },
        None => None,
    }
}

/// The store in which each player before `upto` is replaced by what `f` gives for them.
pub open spec fn rewritten(s: StoreModel, f: spec_fn(int) -> PlayerModel, upto: int) -> StoreModel {
    StoreModel {
        players: Seq::new(
            s.players.len(),
            |k: int|
                if k < upto {
                    f(k)
                } else {
                    s.players[k]
                },
        ),
        ..s
    }
}

pub(crate) proof fn lemma_rewritten_start(s: StoreModel, f: spec_fn(int) -> PlayerModel)
    ensures
        rewritten(s, f, 0) == s,
{
    assert(rewritten(s, f, 0).players =~= s.players);
}

pub(crate) proof fn lemma_rewritten_step(s: StoreModel, f: spec_fn(int) -> PlayerModel, i: int)
    requires
        0 <= i < s.len(),
    ensures
        rewritten(s, f, i).with_player(i, f(i)) == rewritten(s, f, i + 1),
        f(i) == s.players[i] ==> rewritten(s, f, i) == rewritten(s, f, i + 1),
        rewritten(s, f, i).players[i] == s.players[i],
        rewritten(s, f, i).blocked == s.blocked,
        rewritten(s, f, i).saved == s.saved,
        rewritten(s, f, i).len() == s.len(),
{
    assert(rewritten(s, f, i).with_player(i, f(i)).players =~= rewritten(s, f, i + 1).players);
    if f(i) == s.players[i] {
        assert(rewritten(s, f, i).players =~= rewritten(s, f, i + 1).players);
    }
}

/// The content of a result that may be there or not.
pub open spec fn shown(outcome: Option<NightResult>) -> Option<ResultModel> {
    match outcome {
        Some(r) => Some(r@),
        None => None,
    }
}

/// The player `p` with a new result in place of the old one, if there is a new one.
pub open spec fn with_outcome(p: PlayerModel, outcome: Option<ResultModel>) -> PlayerModel {
    match outcome {
        Some(r) => PlayerModel { result: Some(r), ..p },
        None => p,
    }
}

/// Hands each player the outcome that was worked out for them.
pub(crate) fn record(store: &mut PlayerStore, outcomes: Vec<Option<NightResult>>)
    requires
        old(store).wf(),
        outcomes.len() == old(store)@.len(),
    ensures
        final(store).wf(),
        final(store)@ == (StoreModel {
            players: Seq::new(
                old(store)@.players.len(),
                |k: int| with_outcome(old(store)@.players[k], shown(outcomes[k])),
            ),
            ..old(store)@
        }),
{
    let ghost before = store@;
    let ghost f = |k: int| with_outcome(before.players[k], shown(outcomes[k]));
    let mut outcomes = outcomes;
    let ghost given = outcomes@;
    let n = store.len();
    let mut i: usize = 0;
    proof {
        lemma_rewritten_start(before, f);
    }
    while i < n
        invariant
            i <= n,
            n == before.len(),
            outcomes.len() == n,
            given.len() == n,
            before.valid(),
            store.wf(),
            f == |k: int| with_outcome(before.players[k], shown(given[k])),
            forall|k: int| i <= k < n ==> outcomes[k] == given[k],
            store@ == rewritten(before, f, i as int),
        decreases n - i,
    {
        proof {
            lemma_rewritten_step(before, f, i as int);
        }
        let outcome = outcomes[i].take();
        match outcome {
            Some(result) => {
                store.set_result(PlayerRef(i), result);
            },
            None => {},
        }
        i = i + 1;
    }
    proof {
        assert(store@.players =~= Seq::new(
            before.players.len(),
            |k: int| with_outcome(before.players[k], shown(given[k])),
        ));
    }
}

/// The players on whom an action lands, where `lands(i, j)` says whether
/// the action of player `i` lands on player `j`.
pub open spec fn marks(lands: spec_fn(int, int) -> bool) -> Set<int> {
    Set::new(|j: int| exists|i: int| #[trigger] lands(i, j))
}

/// The players on whom the action of a player before `upto` lands.
pub open spec fn marks_upto(lands: spec_fn(int, int) -> bool, upto: int) -> Set<int> {
    Set::new(|j: int| exists|i: int| i < upto && #[trigger] lands(i, j))
}

/// The action of player `i` adds the player that it lands on, if any.
pub(crate) proof fn lemma_marks_step(
    lands: spec_fn(int, int) -> bool,
    aim: Option<PlayerRef>,
    i: int,
)
    requires
        forall|j: int| #[trigger] lands(i, j) <==> (aim matches Some(t) && t.0 == j),
    ensures
        marks_upto(lands, i + 1) == match aim {
            Some(t) => marks_upto(lands, i).insert(t.0 as int),
            None => marks_upto(lands, i),
        },
{
    let before = marks_upto(lands, i);
    let after = marks_upto(lands, i + 1);
    let expected = match aim {
        Some(t) => before.insert(t.0 as int),
        None => before,
    };
    assert forall|j: int| after.contains(j) <==> expected.contains(j) by {
        if after.contains(j) {
            let k: int = choose|k: int| k < i + 1 && #[trigger] lands(k, j);
            if k < i {
                assert(before.contains(j));
            }
        }
        if before.contains(j) {
            let k: int = choose|k: int| k < i && #[trigger] lands(k, j);
            assert(k < i + 1 && lands(k, j));
        }
        if expected.contains(j) && !before.contains(j) {
            assert(i < i + 1 && lands(i, j));
        }
    }
    assert(after =~= expected);
}

/// Before anybody has acted the action has landed on nobody; once all `n`
/// players have acted it has landed on everybody it lands on.
pub(crate) proof fn lemma_marks_done(lands: spec_fn(int, int) -> bool, n: int)
    requires
        forall|i: int, j: int| #[trigger] lands(i, j) ==> 0 <= i < n,
    ensures
        marks_upto(lands, 0) == Set::<int>::empty(),
        marks_upto(lands, n) == marks(lands),
{
    assert(marks_upto(lands, 0) =~= Set::<int>::empty());
    assert forall|j: int| marks(lands).contains(j) implies marks_upto(lands, n).contains(j) by {
        let k: int = choose|k: int| #[trigger] lands(k, j);
        assert(k < n && lands(k, j));
    }
    assert(marks_upto(lands, n) =~= marks(lands));
}

} // verus!
