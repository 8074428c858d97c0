//! The player record and its creation: faction defaults first, then what
//! the role grants, then what the modifiers grant.

use vstd::prelude::*;
use crate::components::actions::{Action, ActionModel, Block, Cop, Detective, Kill, Save, Track, Watch, idle};
use crate::components::attributes::{
    Breakthrough, Gun, Innocence, Macho, Uncoppable, Undetectable, Untrackable, Visiting,
};
use crate::store::{MAX_PLAYERS, PlayerStore, StoreModel};
use crate::components::{
    Dead, Faction, LongDead, Modifier, Modifiers, Name, NightResult, PlayerRef, Position,
    ResultModel, Role, Target,
};

verus! {

/// Everything the store keeps about one player. A slot that holds `None` is a
/// fact the player does not have.
pub struct Player {
    pub name: Name,
    pub faction: Faction,
    pub innocence: Innocence,
    pub role: Role,
    pub modifiers: Modifiers,
    pub target: Target,
    pub position: Position,
    pub visiting: Option<Visiting>,
    pub gun: Option<Gun>,
    pub undetectable: Option<Undetectable>,
    pub uncoppable: Option<Uncoppable>,
    pub untrackable: Option<Untrackable>,
    pub breakthrough: Option<Breakthrough>,
    pub macho: Option<Macho>,
    pub dead: Option<Dead>,
    pub long_dead: Option<LongDead>,
    pub cop: Option<Cop>,
    pub detective: Option<Detective>,
    pub track: Option<Track>,
    pub watch: Option<Watch>,
    pub block: Option<Block>,
    pub save: Option<Save>,
    pub kill: Option<Kill>,
    pub result: Option<NightResult>,
}

/// The mathematical content of a `Player`.
pub struct PlayerModel {
    pub name: Seq<char>,
    pub faction: Faction,
    pub innocence: Innocence,
    pub role: Role,
    pub modifiers: Seq<Modifier>,
    pub target: Option<PlayerRef>,
    pub position: Option<PlayerRef>,
    pub visiting: bool,
    pub gun: bool,
    pub undetectable: bool,
    pub uncoppable: bool,
    pub untrackable: bool,
    pub breakthrough: bool,
    pub macho: bool,
    /// The night of death, once killed.
    pub dead: Option<u8>,
    pub long_dead: bool,
    pub cop: Option<ActionModel>,
    pub detective: Option<ActionModel>,
    pub track: Option<ActionModel>,
    pub watch: Option<ActionModel>,
    pub block: Option<ActionModel>,
    pub save: Option<ActionModel>,
    pub kill: Option<ActionModel>,
    pub result: Option<ResultModel>,
}

/// What an action slot holds, as a model.
pub open spec fn slot<A: Action>(held: Option<A>) -> Option<ActionModel> {
    match held {
        Some(a) => Some(a.state()),
        None => None,
    }
}

impl View for Player {
    type V = PlayerModel;

    open spec fn view(&self) -> PlayerModel {
        PlayerModel {
            name: self.name@,
            faction: self.faction,
            innocence: self.innocence,
            role: self.role,
            modifiers: self.modifiers@,
            target: self.target.0,
            position: self.position.0,
            visiting: self.visiting is Some,
            gun: self.gun is Some,
            undetectable: self.undetectable is Some,
            uncoppable: self.uncoppable is Some,
            untrackable: self.untrackable is Some,
            breakthrough: self.breakthrough is Some,
            macho: self.macho is Some,
            dead: match self.dead {
                Some(d) => Some(d.0@),
                None => None,
            },
            long_dead: self.long_dead is Some,
            cop: slot(self.cop),
            detective: slot(self.detective),
            track: slot(self.track),
            watch: slot(self.watch),
            block: slot(self.block),
            save: slot(self.save),
            kill: slot(self.kill),
            result: match self.result {
                Some(r) => Some(r@),
                None => None,
            },
        }
    }
}

/// A player who has a name and nothing else yet: of the Town, innocent,
/// without role, modifiers, capabilities or history, at home with no target.
pub open spec fn nameless_of(name: Seq<char>) -> PlayerModel {
    PlayerModel {
        name,
        faction: Faction::Town,
        innocence: Innocence::Innocent,
        role: Role::Vanilla,
        modifiers: Seq::empty(),
        target: None,
        position: None,
        visiting: false,
        gun: false,
        undetectable: false,
        uncoppable: false,
        untrackable: false,
        breakthrough: false,
        macho: false,
        dead: None,
        long_dead: false,
        cop: None,
        detective: None,
        track: None,
        watch: None,
        block: None,
        save: None,
        kill: None,
        result: None,
    }
}

/// The verdict that a faction carries by default.
pub open spec fn default_innocence(faction: Faction) -> Innocence {
    match faction {
        Faction::Town => Innocence::Innocent,
        Faction::Mafia => Innocence::Guilty,
    }
}

/// Whether the role comes with a gun.
pub open spec fn armed(role: Role) -> bool {
    role is Cop || role is Sheriff || role is Detective || role is Goon
}

/// A freshly granted action for the roles that have it.
pub open spec fn granted(has: bool) -> Option<ActionModel> {
    if has {
        Some(idle())
    } else {
        None
    }
}

/// The player `p` after taking up `role`. Goon and Godfather belong to the
/// Mafia whatever `p` was; the Godfather reads as innocent and cannot be
/// detected. Every role but Vanilla visits. What the role does not grant stays as it was.
pub open spec fn with_role(p: PlayerModel, role: Role) -> PlayerModel {
    PlayerModel {
        role,
        faction: if role is Goon || role is Godfather {
            Faction::Mafia
        } else {
            p.faction
        },
        innocence: if role is Godfather {
            Innocence::Innocent
        } else {
            p.innocence
        },
        visiting: p.visiting || !(role is Vanilla),
        gun: p.gun || armed(role),
        undetectable: p.undetectable || role is Godfather,
        cop: if role is Cop || role is Sheriff { Some(idle()) } else { p.cop },
        detective: if role is Detective || role is Sheriff { Some(idle()) } else { p.detective },
        track: if role is Tracker { Some(idle()) } else { p.track },
        watch: if role is Watcher { Some(idle()) } else { p.watch },
        block: if role is Roleblocker { Some(idle()) } else { p.block },
        save: if role is Doctor { Some(idle()) } else { p.save },
        kill: if role is Goon || role is Godfather { Some(idle()) } else { p.kill },
        ..p
    }
}

/// The player `p` after being given `modifiers`: the list is recorded in the
/// order given, and each modifier that occurs in it leaves its marker.
pub open spec fn with_modifiers(p: PlayerModel, modifiers: Seq<Modifier>) -> PlayerModel {
    PlayerModel {
        modifiers,
        breakthrough: p.breakthrough || modifiers.contains(Modifier::Breakthrough),
        macho: p.macho || modifiers.contains(Modifier::Macho),
        ..p
    }
}

/// The player that creation yields from a name, a faction, a role and modifiers.
pub open spec fn created(
    name: Seq<char>,
    faction: Faction,
    role: Role,
    modifiers: Seq<Modifier>,
) -> PlayerModel {
    with_modifiers(
        with_role(
            PlayerModel { faction, innocence: default_innocence(faction), ..nameless_of(name) },
            role,
        ),
        modifiers,
    )
}

impl Player {
    /// A player with a name who stays home and targets nobody.
    pub fn base_player(name: String) -> (p: Player)
        ensures
            p@ == nameless_of(name@),
    {
        Player {
            name: Name(name),
            faction: Faction::Town,
            innocence: Innocence::Innocent,
            role: Role::Vanilla,
            modifiers: Modifiers(Vec::new()),
            target: Target(None),
            position: Position(None),
            visiting: None,
            gun: None,
            undetectable: None,
            uncoppable: None,
            untrackable: None,
            breakthrough: None,
            macho: None,
            dead: None,
            long_dead: None,
            cop: None,
            detective: None,
            track: None,
            watch: None,
            block: None,
            save: None,
            kill: None,
            result: None,
        }
    }

    /// Joins a faction and takes the verdict that it carries by default.
    pub fn faction(self, faction: Faction) -> (p: Player)
        ensures
            p@ == (PlayerModel { faction, innocence: default_innocence(faction), ..self@ }),
    {
        let inno = match faction {
            Faction::Town => Innocence::Innocent,
            Faction::Mafia => Innocence::Guilty,
        };
        let mut p = self;
        p.faction = faction;
        p.innocence = inno;
        p
    }

    pub fn vanilla(self) -> (p: Player)
        ensures
            p@ == self@,
    {
        self
    }

    pub fn cop(self) -> (p: Player)
        ensures
            p@ == (PlayerModel { visiting: true, gun: true, cop: Some(idle()), ..self@ }),
    {
        let mut p = self;
        p.visiting = Some(Visiting);
        p.gun = Some(Gun);
        p.cop = Some(Cop::new());
        p
    }

    pub fn detective(self) -> (p: Player)
        ensures
            p@ == (PlayerModel { visiting: true, gun: true, detective: Some(idle()), ..self@ }),
    {
        let mut p = self;
        p.visiting = Some(Visiting);
        p.gun = Some(Gun);
        p.detective = Some(Detective::new());
        p
    }

    pub fn tracker(self) -> (p: Player)
        ensures
            p@ == (PlayerModel { visiting: true, track: Some(idle()), ..self@ }),
    {
        let mut p = self;
        p.visiting = Some(Visiting);
        p.track = Some(Track::new());
        p
    }

    pub fn watcher(self) -> (p: Player)
        ensures
            p@ == (PlayerModel { visiting: true, watch: Some(idle()), ..self@ }),
    {
        let mut p = self;
        p.visiting = Some(Visiting);
        p.watch = Some(Watch::new());
        p
    }

    pub fn roleblocker(self) -> (p: Player)
        ensures
            p@ == (PlayerModel { visiting: true, block: Some(idle()), ..self@ }),
    {
        let mut p = self;
        p.visiting = Some(Visiting);
        p.block = Some(Block::new());
        p
    }

    pub fn doctor(self) -> (p: Player)
        ensures
            p@ == (PlayerModel { visiting: true, save: Some(idle()), ..self@ }),
    {
        let mut p = self;
        p.visiting = Some(Visiting);
        p.save = Some(Save::new());
        p
    }

    pub fn goon(self) -> (p: Player)
        ensures
            p@ == (PlayerModel {
                faction: Faction::Mafia,
                visiting: true,
                gun: true,
                kill: Some(idle()),
                ..self@
            }),
    {
        let mut p = self;
        p.faction = Faction::Mafia;
        p.visiting = Some(Visiting);
        p.gun = Some(Gun);
        p.kill = Some(Kill::new());
        p
    }

    pub fn godfather(self) -> (p: Player)
        ensures
            p@ == (PlayerModel {
                faction: Faction::Mafia,
                innocence: Innocence::Innocent,
                visiting: true,
                undetectable: true,
                kill: Some(idle()),
                ..self@
            }),
    {
        let mut p = self;
        p.faction = Faction::Mafia;
        p.visiting = Some(Visiting);
        p.innocence = Innocence::Innocent;
        p.undetectable = Some(Undetectable);
        p.kill = Some(Kill::new());
        p
    }

    pub fn breakthrough(self) -> (p: Player)
        ensures
            p@ == (PlayerModel { breakthrough: true, ..self@ }),
    {
        let mut p = self;
        p.breakthrough = Some(Breakthrough);
        p
    }

    pub fn macho(self) -> (p: Player)
        ensures
            p@ == (PlayerModel { macho: true, ..self@ }),
    {
        let mut p = self;
        p.macho = Some(Macho);
        p
    }
}

/// Records the role and grants what comes with it.
pub fn give_role(player: Player, role: Role) -> (p: Player)
    ensures
        p@ == with_role(player@, role),
{
    let mut player = player;
    player.role = role;
    match role {
        Role::Vanilla => player.vanilla(),
        Role::Cop => player.cop(),
        Role::Sheriff => player.cop().detective(),
        Role::Detective => player.detective(),
        Role::Tracker => player.tracker(),
        Role::Watcher => player.watcher(),
        Role::Roleblocker => player.roleblocker(),
        Role::Doctor => player.doctor(),
        Role::Goon => player.goon(),
        Role::Godfather => player.godfather(),
    }
}

/// Grants the marker of each modifier in the list, then records the list.
pub fn give_modifiers(player: Player, modifiers: Vec<Modifier>) -> (p: Player)
    ensures
        p@ == with_modifiers(player@, modifiers@),
{
    let ghost before = player@;
    let mut player_upd = player;
    let mut i: usize = 0;
    while i < modifiers.len()
        invariant
            i <= modifiers.len(),
            player_upd@ == with_modifiers(before, modifiers@.take(i as int)).modifiers_kept(before),
        decreases modifiers.len() - i,
    {
        proof {
            let next = modifiers@.take(i as int + 1);
            assert(next == modifiers@.take(i as int).push(modifiers@[i as int]));
            assert forall|m: Modifier| next.contains(m) <==> (modifiers@.take(i as int).contains(m) || m == modifiers@[i as int]) by {
                if next.contains(m) {
                    let k: int = choose|k: int| 0 <= k < next.len() && next[k] == m;
                    if k < i {
                        assert(modifiers@.take(i as int)[k] == m);
                    }
                }
                if modifiers@.take(i as int).contains(m) {
                    let k: int = choose|k: int| 0 <= k < i && modifiers@.take(i as int)[k] == m;
                    assert(next[k] == m);
                }
                if m == modifiers@[i as int] {
                    assert(next[i as int] == m);
                }
            }
        }
        player_upd = match modifiers[i] {
            Modifier::Breakthrough => player_upd.breakthrough(),
            Modifier::Macho => player_upd.macho(),
        };
        i = i + 1;
    }
    proof {
        assert(modifiers@.take(modifiers.len() as int) == modifiers@);
    }
    player_upd.modifiers = Modifiers(modifiers);
    player_upd
}

impl PlayerModel {
    /// This player with the modifier list of `other`.
    pub open spec fn modifiers_kept(self, other: PlayerModel) -> PlayerModel {
        PlayerModel { modifiers: other.modifiers, ..self }
    }
}

/// Creates a player in the store and hands out the handle.
///
/// Certain roles overwrite the faction: asked for a Town Goon, the store holds a Mafia Goon.
pub fn create_player(
    store: &mut PlayerStore,
    name: String,
    faction: Faction,
    role: Role,
    modifiers: Vec<Modifier>,
) -> (r: PlayerRef)
    requires
        old(store).wf(),
        old(store)@.len() < MAX_PLAYERS,
    ensures
        final(store).wf(),
        r.0 == old(store)@.len(),
        final(store)@ == (StoreModel {
            players: old(store)@.players.push(created(name@, faction, role, modifiers@)),
            ..old(store)@
        }),
{
    let player = Player::base_player(name).faction(faction);
    let player = give_role(player, role);
    let player = give_modifiers(player, modifiers);
    store.enroll(player)
}

/// An action that a player record has a slot for.
pub trait Capability: Action {
    /// The slot of a player in which an action of this kind is kept.
    spec fn slot_of(p: PlayerModel) -> Option<ActionModel>;

    /// The action of this kind that the player holds, if any.
    fn held_by(player: &Player) -> (held: &Option<Self>)
        ensures
            slot(*held) == Self::slot_of(player@),
    ;
}

impl Capability for Cop {
    open spec fn slot_of(p: PlayerModel) -> Option<ActionModel> {
        p.cop
    }

    fn held_by(player: &Player) -> (held: &Option<Cop>) {
        &player.cop
    }
}

impl Capability for Detective {
    open spec fn slot_of(p: PlayerModel) -> Option<ActionModel> {
        p.detective
    }

    fn held_by(player: &Player) -> (held: &Option<Detective>) {
        &player.detective
    }
}

impl Capability for Track {
    open spec fn slot_of(p: PlayerModel) -> Option<ActionModel> {
        p.track
    }

    fn held_by(player: &Player) -> (held: &Option<Track>) {
        &player.track
    }
}

impl Capability for Watch {
    open spec fn slot_of(p: PlayerModel) -> Option<ActionModel> {
        p.watch
    }

    fn held_by(player: &Player) -> (held: &Option<Watch>) {
        &player.watch
    }
}

impl Capability for Block {
    open spec fn slot_of(p: PlayerModel) -> Option<ActionModel> {
        p.block
    }

    fn held_by(player: &Player) -> (held: &Option<Block>) {
        &player.block
    }
}

impl Capability for Save {
    open spec fn slot_of(p: PlayerModel) -> Option<ActionModel> {
        p.save
    }

    fn held_by(player: &Player) -> (held: &Option<Save>) {
        &player.save
    }
}

impl Capability for Kill {
    open spec fn slot_of(p: PlayerModel) -> Option<ActionModel> {
        p.kill
    }

    fn held_by(player: &Player) -> (held: &Option<Kill>) {
        &player.kill
    }
}

} // verus!
