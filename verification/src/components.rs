//! The facts that a player can have: name, faction, role, modifiers, target,
//! position, death record and the result of the night.

use vstd::prelude::*;
use vstd::string::*;
use crate::resources::Night;

pub mod actions;
pub mod attributes;

verus! {

/// A stable handle to one player of a store: the position at which the player
/// was created. Other players refer to a player by handle, never by a copy.
#[derive(Clone, Copy, Debug, PartialEq, Eq, Structural)]
pub struct PlayerRef(pub usize);

/// The name of the player as other players can identify them.
#[derive(Debug)]
pub struct Name(pub String);

#[derive(Clone, Copy, Debug, PartialEq, Eq, Structural)]
pub enum Faction {
    Town,
    Mafia,
}

/// Inner is the night died.
pub struct Dead(pub Night);

/// Signifies that player is dead and did not die tonight.
#[derive(Clone, Copy, Debug, Default)]
pub struct LongDead;

/// Current target for a night action.
/// None if action does not take a target or no action being taken.
#[derive(Clone, Copy, Debug)]
pub struct Target(pub Option<PlayerRef>);

/// Current location, relative to another player, based on visiting night action.
/// None if player 'went nowhere' on current night.
#[derive(Clone, Copy, Debug)]
pub struct Position(pub Option<PlayerRef>);

/// What a night action came to: whether it worked, and what it disclosed.
#[derive(Debug)]
pub struct NightResult {
    pub success: bool,
    pub val: String,
}

#[derive(Clone, Copy, Debug, PartialEq, Eq, Structural)]
pub enum Role {
    Vanilla,
    Cop,
    Sheriff,
    Detective,
    Tracker,
    Watcher,
    Roleblocker,
    Doctor,
    Goon,
    Godfather,
}

#[derive(Clone, Copy, Debug, PartialEq, Eq, Structural)]
pub enum Modifier {
    Breakthrough,
    Macho,
}

/// The modifiers of a player, in the order in which they were given.
#[derive(Debug)]
pub struct Modifiers(pub Vec<Modifier>);

/// The value of a result that discloses nothing.
pub open spec fn not_applicable() -> Seq<char> {
    "n/a"@
}

/// The mathematical content of a `NightResult`.
pub struct ResultModel {
    pub success: bool,
    pub val: Seq<char>,
}

impl View for Name {
    type V = Seq<char>;

    open spec fn view(&self) -> Seq<char> {
        self.0@
    }
}

impl View for NightResult {
    type V = ResultModel;

    open spec fn view(&self) -> ResultModel {
        ResultModel { success: self.success, val: self.val@ }
    }
}

impl View for Modifiers {
    type V = Seq<Modifier>;

    open spec fn view(&self) -> Seq<Modifier> {
        self.0@
    }
}

impl NightResult {
    /// A result that discloses nothing.
    pub fn plain(success: bool) -> (r: NightResult)
        ensures
            r@ == (ResultModel { success, val: not_applicable() }),
    {
        NightResult { success, val: String::from_str("n/a") }
    }
}

impl Role {
    /// The role's name as it is disclosed and reported.
    pub open spec fn text(self) -> Seq<char> {
        match self {
            Role::Vanilla => "Vanilla"@,
            Role::Cop => "Cop"@,
            Role::Sheriff => "Sheriff"@,
            Role::Detective => "Detective"@,
            Role::Tracker => "Tracker"@,
            Role::Watcher => "Watcher"@,
            Role::Roleblocker => "Roleblocker"@,
            Role::Doctor => "Doctor"@,
            Role::Goon => "Goon"@,
            Role::Godfather => "Godfather"@,
        }
    }

    pub fn to_string(&self) -> (s: String)
        ensures
            s@ == self.text(),
    {
        match self {
            Role::Vanilla => String::from_str("Vanilla"),
            Role::Cop => String::from_str("Cop"),
            Role::Sheriff => String::from_str("Sheriff"),
            Role::Detective => String::from_str("Detective"),
            Role::Tracker => String::from_str("Tracker"),
            Role::Watcher => String::from_str("Watcher"),
            Role::Roleblocker => String::from_str("Roleblocker"),
            Role::Doctor => String::from_str("Doctor"),
            Role::Goon => String::from_str("Goon"),
            Role::Godfather => String::from_str("Godfather"),
        }
    }
}

impl Modifier {
    /// The modifier's name as it is reported.
    pub open spec fn text(self) -> Seq<char> {
        match self {
            Modifier::Breakthrough => "Breakthrough"@,
            Modifier::Macho => "Macho"@,
        }
    }

    pub fn to_string(&self) -> (s: String)
        ensures
            s@ == self.text(),
    {
        match self {
            Modifier::Breakthrough => String::from_str("Breakthrough"),
            Modifier::Macho => String::from_str("Macho"),
        }
    }
}

} // verus!
