//! Target assignment.

use vstd::prelude::*;
use crate::components::{Faction, PlayerRef};
use crate::entities::PlayerModel;
use crate::store::{PlayerStore, StoreModel, aimed_at};
use crate::systems::{alive, lemma_rewritten_start, lemma_rewritten_step, rewritten};

verus! {

/// What player `i` submitted in `choices`: nobody, where the list does not reach that far.
pub open spec fn chosen(choices: Seq<Option<PlayerRef>>, i: int) -> Option<PlayerRef> {
    if 0 <= i < choices.len() {
        choices[i]
    } else {
        None
    }
}

/// Whether every choice for a player of the store is nobody or a player of the store.
pub open spec fn choices_fit(s: StoreModel, choices: Seq<Option<PlayerRef>>) -> bool {
    forall|i: int| 0 <= i < s.len() ==> s.knows(#[trigger] chosen(choices, i))
}

/// Player `i` once targets are assigned: a living player takes what they
/// submitted, as their own target and as that of each action they hold; the
/// dead are left as they were.
pub open spec fn assigned(s: StoreModel, choices: Seq<Option<PlayerRef>>, i: int) -> PlayerModel {
    let p = s.players[i];
    if alive(p) {
        aimed_at(p, chosen(choices, i))
    } else {
        p
    }
}

/// The store once targets are assigned.
pub open spec fn targets_updated(s: StoreModel, choices: Seq<Option<PlayerRef>>) -> StoreModel {
    StoreModel { players: Seq::new(s.players.len(), |i: int| assigned(s, choices, i)), ..s }
}

/// The target that a faction-wide submission gives to a player of `faction`.
pub open spec fn faction_choice(
    faction: Faction,
    town: Option<PlayerRef>,
    mafia: Option<PlayerRef>,
) -> Option<PlayerRef> {
    match faction {
        Faction::Town => town,
        Faction::Mafia => mafia,
    }
}

/// Update targets of all living players from input.
///
/// Holds the input: what each player submitted as their target for the night.
pub struct UpdateTargets {
    choices: Vec<Option<PlayerRef>>,
}

impl View for UpdateTargets {
    type V = Seq<Option<PlayerRef>>;

    closed spec fn view(&self) -> Seq<Option<PlayerRef>> {
        self.choices@
    }
}

impl UpdateTargets {
    /// A night on which nobody has submitted anything.
    pub fn new() -> (input: UpdateTargets)
        ensures
            input@ == Seq::<Option<PlayerRef>>::empty(),
    {
        UpdateTargets { choices: Vec::new() }
    }

    /// The submission in which all players of the same faction name the same target.
    pub fn by_faction(
        store: &PlayerStore,
        town: Option<PlayerRef>,
        mafia: Option<PlayerRef>,
    ) -> (input: UpdateTargets)
        ensures
            input@ == Seq::new(
                store@.players.len(),
                |i: int| faction_choice(store@.players[i].faction, town, mafia),
            ),
    {
        let n = store.len();
        let mut choices: Vec<Option<PlayerRef>> = Vec::new();
        let mut i: usize = 0;
        while i < n
            invariant
                i <= n,
                n == store@.len(),
                choices@ == Seq::new(
                    i as nat,
                    |k: int| faction_choice(store@.players[k].faction, town, mafia),
                ),
            decreases n - i,
        {
            let choice = match store.get(PlayerRef(i)).faction {
                Faction::Town => town,
                Faction::Mafia => mafia,
            };
            choices.push(choice);
            proof {
                assert(choices@ =~= Seq::new(
                    (i + 1) as nat,
                    |k: int| faction_choice(store@.players[k].faction, town, mafia),
                ));
            }
            i = i + 1;
        }
        UpdateTargets { choices }
    }

    /// Records what one player submitted, in place of anything they submitted before.
    pub fn submit(&mut self, player: PlayerRef, target: Option<PlayerRef>)
        ensures
            forall|i: int|
                chosen(final(self)@, i) == if i == player.0 {
                    target
                } else {
                    chosen(old(self)@, i)
                },
    {
        while self.choices.len() <= player.0
            invariant
                forall|i: int| chosen(self@, i) == chosen(old(self)@, i),
            decreases player.0 + 1 - self.choices.len(),
        {
            let ghost entry = self@;
            self.choices.push(None);
            proof {
                assert forall|i: int| chosen(self@, i) == chosen(old(self)@, i) by {
                    assert(chosen(entry, i) == chosen(old(self)@, i));
                }
            }
        }
        let ghost entry = self@;
        self.choices[player.0] = target;
        proof {
            assert forall|i: int|
                chosen(self@, i) == if i == player.0 {
                    target
                } else {
                    chosen(old(self)@, i)
                } by {
                assert(chosen(entry, i) == chosen(old(self)@, i));
            }
        }
    }

    fn choice_of(&self, i: usize) -> (t: Option<PlayerRef>)
        ensures
            t == chosen(self@, i as int),
    {
        if i < self.choices.len() {
            self.choices[i]
        } else {
            None
        }
    }

    pub fn run(&mut self, store: &mut PlayerStore)
        requires
            old(store).wf(),
            choices_fit(old(store)@, old(self)@),
        ensures
            final(store).wf(),
            final(store)@ == targets_updated(old(store)@, old(self)@),
            final(self)@ == old(self)@,
    {
        let ghost before = store@;
        let ghost choices = self@;
        let ghost f = |k: int| assigned(before, choices, k);
        let n = store.len();
        let mut i: usize = 0;
        proof {
            lemma_rewritten_start(before, f);
        }
        while i < n
            invariant
                i <= n,
                n == before.len(),
                before.valid(),
                choices_fit(before, choices),
                self@ == choices,
                store.wf(),
                f == |k: int| assigned(before, choices, k),
                store@ == rewritten(before, f, i as int),
            decreases n - i,
        {
            proof {
                lemma_rewritten_step(before, f, i as int);
                assert(before.knows(chosen(choices, i as int)));
            }
            let actor = PlayerRef(i);
            if store.get(actor).long_dead.is_none() {
                let target = self.choice_of(i);
                store.aim(actor, target);
            }
            i = i + 1;
        }
        proof {
            assert(store@.players =~= targets_updated(before, choices).players);
        }
    }
}

} // verus!
