//! The player store: the table of players, the sets of those under an effect
//! of the night, and the operations that the phases of a night are made of.

use vstd::prelude::*;
use crate::components::actions::{Action, ActionModel, aimed};
use specs::BitSet;
use crate::bits::{MAX_INDEX, add_bit, clear_bits, has_bit, members, no_bits};
use crate::components::attributes::{Blocked, Saved};
use crate::components::{Dead, LongDead, NightResult, PlayerRef, Position, Target};
use crate::entities::{Player, PlayerModel};
use crate::resources::Night;

verus! {

/// The mathematical content of a `PlayerStore`: the players in the order of
/// their creation, and the two sets of players under an effect that lasts one night.
pub struct StoreModel {
    pub players: Seq<PlayerModel>,
    pub blocked: Set<int>,
    pub saved: Set<int>,
}

impl StoreModel {
    pub open spec fn len(self) -> int {
        self.players.len() as int
    }

    /// Whether `r` is the handle of a player of this store.
    pub open spec fn has(self, r: PlayerRef) -> bool {
        r.0 < self.players.len()
    }

    /// Whether `t` is nobody or a player of this store.
    pub open spec fn knows(self, t: Option<PlayerRef>) -> bool {
        t matches Some(r) ==> self.has(r)
    }

    /// The player behind a handle.
    pub open spec fn at(self, r: PlayerRef) -> PlayerModel {
        self.players[r.0 as int]
    }

    /// The store with the player at `i` replaced.
    pub open spec fn with_player(self, i: int, p: PlayerModel) -> StoreModel {
        StoreModel { players: self.players.update(i, p), ..self }
    }

    /// No effect of a night is left on anybody.
    pub open spec fn settled(self) -> bool {
        self.blocked == Set::<int>::empty() && self.saved == Set::<int>::empty()
    }

    /// Whether `p` could be a player of this store: target and position are
    /// nobody or players of the store, whoever has a target has every action
    /// they hold in use, and if `p` is long dead there is a night of death
    /// and no target.
    pub open spec fn sound(self, p: PlayerModel) -> bool {
        &&& self.knows(p.target)
        &&& self.knows(p.position)
        &&& p.target is Some ==> in_use(p)
        &&& p.long_dead ==> p.dead is Some
        &&& p.long_dead ==> p.target is None
    }

    /// The conditions that every phase may rely on: targets, positions and
    /// effects refer to players of the store; a player with a target has
    /// every action they hold in use; a player who is long dead has a
    /// night of death and no target.
    pub open spec fn valid(self) -> bool {
        &&& forall|i: int|
            0 <= i < self.len() ==> {
                &&& self.sound(#[trigger] self.players[i])
            }
        &&& forall|j: int| self.blocked.contains(j) ==> 0 <= j < self.len()
        &&& forall|j: int| self.saved.contains(j) ==> 0 <= j < self.len()
    }
}

/// Whether `i` is a living player of the store who goes by `name`.
pub open spec fn living_named(s: StoreModel, name: Seq<char>, i: int) -> bool {
    0 <= i < s.len() && !s.players[i].long_dead && s.players[i].name == name
}

/// Whether an action slot is empty or holds an action that is active.
pub open spec fn ready(held: Option<ActionModel>) -> bool {
    held matches Some(a) ==> a.active
}

/// Whether every action that `p` holds is active.
pub open spec fn in_use(p: PlayerModel) -> bool {
    &&& ready(p.cop)
    &&& ready(p.detective)
    &&& ready(p.track)
    &&& ready(p.watch)
    &&& ready(p.block)
    &&& ready(p.save)
    &&& ready(p.kill)
}

/// A change to the effects of the night alone keeps a store valid, as long
/// as the effects lie on players of the store.
pub proof fn lemma_with_effects_valid(s: StoreModel, t: StoreModel)
    requires
        s.valid(),
        t.players == s.players,
        forall|j: int| t.blocked.contains(j) ==> 0 <= j < s.len(),
        forall|j: int| t.saved.contains(j) ==> 0 <= j < s.len(),
    ensures
        t.valid(),
{
    assert forall|j: int| 0 <= j < t.len() implies t.sound(#[trigger] t.players[j]) by {
        assert(s.sound(s.players[j]));
    }
}

/// Replacing a player by one that is sound keeps a store valid.
pub proof fn lemma_with_player_valid(s: StoreModel, i: int, p: PlayerModel)
    requires
        s.valid(),
        0 <= i < s.len(),
        s.sound(p),
    ensures
        s.with_player(i, p).valid(),
        s.with_player(i, p).len() == s.len(),
{
    let t = s.with_player(i, p);
    assert forall|j: int| 0 <= j < t.len() implies t.sound(#[trigger] t.players[j]) by {
        if j != i {
            assert(s.sound(s.players[j]));
        }
    }
}

/// What aiming does to an action slot: a held action is pointed at the
/// target, an empty slot stays empty.
pub open spec fn aim_slot(held: Option<ActionModel>, target: Option<PlayerRef>) -> Option<
    ActionModel,
> {
    match held {
        Some(_) => Some(aimed(target)),
        None => None,
    }
}

/// The player `p` with `target` as tonight's target of the player and of each action held.
pub open spec fn aimed_at(p: PlayerModel, target: Option<PlayerRef>) -> PlayerModel {
    PlayerModel {
        target,
        cop: aim_slot(p.cop, target),
        detective: aim_slot(p.detective, target),
        track: aim_slot(p.track, target),
        watch: aim_slot(p.watch, target),
        block: aim_slot(p.block, target),
        save: aim_slot(p.save, target),
        kill: aim_slot(p.kill, target),
        ..p
    }
}

/// The player `p` once somebody tried to kill them on `night`: the first death stands.
pub open spec fn struck(p: PlayerModel, night: u8) -> PlayerModel {
    PlayerModel { dead: if p.dead is Some { p.dead } else { Some(night) }, ..p }
}

/// The player `p` once their death is a thing of the past.
pub open spec fn buried(p: PlayerModel) -> PlayerModel {
    PlayerModel { long_dead: true, target: None, ..p }
}

/// The number of players that a store takes at most: what the bit sets that
/// hold the effects of a night can index.
pub const MAX_PLAYERS: usize = MAX_INDEX;

/// The authoritative table of players and of the facts attached to them.
/// The effects that last one night are kept apart from the players, in two
/// sets that are cleared as a whole.
pub struct PlayerStore {
    players: Vec<Player>,
    blocked: BitSet,
    saved: BitSet,
}

impl View for PlayerStore {
    type V = StoreModel;

    closed spec fn view(&self) -> StoreModel {
        StoreModel {
            players: Seq::new(self.players.len() as nat, |i: int| self.players[i]@),
            blocked: members(self.blocked),
            saved: members(self.saved),
        }
    }
}

fn aim_held<A: Action>(held: &mut Option<A>, target: Option<PlayerRef>)
    ensures
        crate::entities::slot(*final(held)) == aim_slot(crate::entities::slot(*old(held)), target),
{
    match held {
        Some(a) => {
            a.aim(target);
        },
        None => {},
    }
}

impl PlayerStore {
    /// Well-formedness: what every operation needs and keeps.
    pub open spec fn wf(&self) -> bool {
        self@.valid() && self@.len() <= MAX_PLAYERS
    }

    /// A change to one player alone shows in the model as a replacement of that player.
    proof fn lemma_one_changed(before: PlayerStore, after: PlayerStore, i: int, p: PlayerModel)
        requires
            before.wf(),
            0 <= i < before.players.len(),
            after.players.len() == before.players.len(),
            forall|j: int| 0 <= j < before.players.len() && j != i ==> after.players[j] == before.players[j],
            after.players[i]@ == p,
            after.blocked == before.blocked,
            after.saved == before.saved,
            before@.sound(p),
        ensures
            after.wf(),
            after@ == before@.with_player(i, p),
    {
        assert(after@.players =~= before@.players.update(i, p));
        lemma_with_player_valid(before@, i, p);
    }

    /// A store without players.
    pub fn new() -> (store: PlayerStore)
        ensures
            store.wf(),
            store@.players == Seq::<PlayerModel>::empty(),
            store@.settled(),
    {
        let store = PlayerStore { players: Vec::new(), blocked: no_bits(), saved: no_bits() };
        assert(store@.players =~= Seq::<PlayerModel>::empty());
        store
    }

    /// The number of players ever created, dead ones included.
    pub fn len(&self) -> (n: usize)
        ensures
            n == self@.len(),
    {
        self.players.len()
    }

    /// Whether `r` refers to a player of this store.
    pub fn contains(&self, r: PlayerRef) -> (b: bool)
        ensures
            b == self@.has(r),
    {
        r.0 < self.players.len()
    }

    /// The player behind a handle.
    pub fn get(&self, r: PlayerRef) -> (p: &Player)
        requires
            self@.has(r),
        ensures
            p@ == self@.at(r),
    {
        &self.players[r.0]
    }

    /// The first living player who goes by `name`, if there is one.
    pub fn find_living(&self, name: &String) -> (found: Option<PlayerRef>)
        ensures
            match found {
                Some(r) => living_named(self@, name@, r.0 as int) && forall|k: int|
                    0 <= k < r.0 ==> !living_named(self@, name@, k),
                None => forall|k: int| !living_named(self@, name@, k),
            },
    {
        let n = self.players.len();
        let mut i: usize = 0;
        while i < n
            invariant
                i <= n,
                n == self.players.len(),
                forall|k: int| 0 <= k < i ==> !living_named(self@, name@, k),
            decreases n - i,
        {
            let player = &self.players[i];
            if player.long_dead.is_none() && player.name.0 == *name {
                return Some(PlayerRef(i));
            }
            i = i + 1;
        }
        None
    }

    /// The mark of a player who is blocked tonight.
    pub fn blocked(&self, r: PlayerRef) -> (mark: Option<Blocked>)
        requires
            self.wf(),
            self@.has(r),
        ensures
            mark is Some == self@.blocked.contains(r.0 as int),
    {
        if has_bit(&self.blocked, r.0 as u32) {
            Some(Blocked)
        } else {
            None
        }
    }

    /// The mark of a player who is protected tonight.
    pub fn saved(&self, r: PlayerRef) -> (mark: Option<Saved>)
        requires
            self.wf(),
            self@.has(r),
        ensures
            mark is Some == self@.saved.contains(r.0 as int),
    {
        if has_bit(&self.saved, r.0 as u32) {
            Some(Saved)
        } else {
            None
        }
    }

    /// Takes a new player in, after all the others, and hands out the handle.
    pub fn enroll(&mut self, player: Player) -> (r: PlayerRef)
        requires
            old(self).wf(),
            old(self)@.len() < MAX_PLAYERS,
            player@.target is None,
            player@.position is None,
            !player@.long_dead,
        ensures
            final(self).wf(),
            r.0 == old(self)@.len(),
            final(self)@ == (StoreModel {
                players: old(self)@.players.push(player@),
                ..old(self)@
            }),
    {
        let r = PlayerRef(self.players.len());
        self.players.push(player);
        proof {
            assert(self@.players =~= old(self)@.players.push(player@));
            assert forall|j: int| 0 <= j < self@.len() implies self@.sound(
                #[trigger] self@.players[j],
            ) by {
                if j < old(self)@.len() {
                    assert(old(self)@.sound(old(self)@.players[j]));
                }
            }
        }
        r
    }

    /// Gives a living player tonight's target, and points each action the
    /// player holds at it.
    pub fn aim(&mut self, r: PlayerRef, target: Option<PlayerRef>)
        requires
            old(self).wf(),
            old(self)@.has(r),
            old(self)@.knows(target),
            !old(self)@.at(r).long_dead,
        ensures
            final(self).wf(),
            final(self)@ == old(self)@.with_player(r.0 as int, aimed_at(old(self)@.at(r), target)),
    {
        let player = &mut self.players[r.0];
        player.target = Target(target);
        aim_held(&mut player.cop, target);
        aim_held(&mut player.detective, target);
        aim_held(&mut player.track, target);
        aim_held(&mut player.watch, target);
        aim_held(&mut player.block, target);
        aim_held(&mut player.save, target);
        aim_held(&mut player.kill, target);
        proof {
            Self::lemma_one_changed(*old(self), *self, r.0 as int, aimed_at(old(self)@.at(r), target));
        }
    }

    /// Records where a player went tonight.
    pub fn set_position(&mut self, r: PlayerRef, position: Option<PlayerRef>)
        requires
            old(self).wf(),
            old(self)@.has(r),
            old(self)@.knows(position),
        ensures
            final(self).wf(),
            final(self)@ == old(self)@.with_player(
                r.0 as int,
                PlayerModel { position, ..old(self)@.at(r) },
            ),
    {
        let player = &mut self.players[r.0];
        player.position = Position(position);
        proof {
            Self::lemma_one_changed(*old(self), *self, r.0 as int, PlayerModel { position, ..old(self)@.at(r) });
        }
    }

    /// Records what a player's action came to tonight, in place of any earlier result.
    pub fn set_result(&mut self, r: PlayerRef, result: NightResult)
        requires
            old(self).wf(),
            old(self)@.has(r),
        ensures
            final(self).wf(),
            final(self)@ == old(self)@.with_player(
                r.0 as int,
                PlayerModel { result: Some(result@), ..old(self)@.at(r) },
            ),
    {
        let ghost content = result@;
        self.players[r.0].result = Some(result);
        proof {
            Self::lemma_one_changed(*old(self), *self, r.0 as int, PlayerModel { result: Some(content), ..old(self)@.at(r) });
        }
    }

    /// Marks a player as blocked for the night.
    pub fn block(&mut self, r: PlayerRef)
        requires
            old(self).wf(),
            old(self)@.has(r),
        ensures
            final(self).wf(),
            final(self)@ == (StoreModel {
                blocked: old(self)@.blocked.insert(r.0 as int),
                ..old(self)@
            }),
    {
        add_bit(&mut self.blocked, r.0 as u32);
        proof {
            assert(self@.players =~= old(self)@.players);
            lemma_with_effects_valid(old(self)@, self@);
        }
    }

    /// Marks a player as protected for the night.
    pub fn save(&mut self, r: PlayerRef)
        requires
            old(self).wf(),
            old(self)@.has(r),
        ensures
            final(self).wf(),
            final(self)@ == (StoreModel {
                saved: old(self)@.saved.insert(r.0 as int),
                ..old(self)@
            }),
    {
        add_bit(&mut self.saved, r.0 as u32);
        proof {
            assert(self@.players =~= old(self)@.players);
            lemma_with_effects_valid(old(self)@, self@);
        }
    }

    /// Kills a player on the given night. Somebody who is dead already stays
    /// dead since the night of the first death.
    pub fn strike(&mut self, r: PlayerRef, night: Night)
        requires
            old(self).wf(),
            old(self)@.has(r),
        ensures
            final(self).wf(),
            final(self)@ == old(self)@.with_player(r.0 as int, struck(old(self)@.at(r), night@)),
    {
        if self.players[r.0].dead.is_none() {
            self.players[r.0].dead = Some(Dead(night));
        }
        proof {
            Self::lemma_one_changed(*old(self), *self, r.0 as int, struck(old(self)@.at(r), night@));
        }
    }

    /// Turns a death into a past one: the player is long dead from now on and targets nobody.
    pub fn bury(&mut self, r: PlayerRef)
        requires
            old(self).wf(),
            old(self)@.has(r),
            old(self)@.at(r).dead is Some,
        ensures
            final(self).wf(),
            final(self)@ == old(self)@.with_player(r.0 as int, buried(old(self)@.at(r))),
    {
        let player = &mut self.players[r.0];
        player.target = Target(None);
        player.long_dead = Some(LongDead);
        proof {
            Self::lemma_one_changed(*old(self), *self, r.0 as int, buried(old(self)@.at(r)));
        }
    }

    /// Lifts every effect of the night from everybody.
    pub fn clear_effects(&mut self)
        requires
            old(self).wf(),
        ensures
            final(self).wf(),
            final(self)@ == (StoreModel {
                blocked: Set::<int>::empty(),
                saved: Set::<int>::empty(),
                ..old(self)@
            }),
    {
        clear_bits(&mut self.blocked);
        clear_bits(&mut self.saved);
        proof {
            assert(self@.players =~= old(self)@.players);
            lemma_with_effects_valid(old(self)@, self@);
        }
    }
}

} // verus!
