//! The verdict of a player and the markers that a player can carry.

use vstd::prelude::*;
use vstd::string::*;
use crate::entities::{Player, PlayerModel};

verus! {

/// A capability that defeats one kind of information action aimed at its holder.
pub trait ActionStopper {
    /// Whether `p` holds this capability.
    spec fn stops(p: PlayerModel) -> bool;

    fn protects(player: &Player) -> (b: bool)
        ensures
            b == Self::stops(player@),
    ;
}

#[derive(Clone, Copy, Debug, PartialEq, Eq, Structural)]
pub enum Innocence {
    Innocent,
    Guilty,
}

impl Innocence {
    /// The verdict as it is disclosed.
    pub open spec fn text(self) -> Seq<char> {
        match self {
            Innocence::Innocent => "Innocent"@,
            Innocence::Guilty => "Guilty"@,
        }
    }

    pub fn to_string(&self) -> (s: String)
        ensures
            s@ == self.text(),
    {
        match self {
            Innocence::Innocent => String::from_str("Innocent"),
            Innocence::Guilty => String::from_str("Guilty"),
        }
    }
}

#[derive(Clone, Copy, Debug, Default)]
pub struct Gun;

#[derive(Clone, Copy, Debug, Default)]
pub struct Undetectable;

impl ActionStopper for Undetectable {
    open spec fn stops(p: PlayerModel) -> bool {
        p.undetectable
    }

    fn protects(player: &Player) -> (b: bool) {
        player.undetectable.is_some()
    }
}

#[derive(Clone, Copy, Debug, Default)]
pub struct Uncoppable;

impl ActionStopper for Uncoppable {
    open spec fn stops(p: PlayerModel) -> bool {
        p.uncoppable
    }

    fn protects(player: &Player) -> (b: bool) {
        player.uncoppable.is_some()
    }
}

#[derive(Clone, Copy, Debug, Default)]
pub struct Untrackable;

impl ActionStopper for Untrackable {
    open spec fn stops(p: PlayerModel) -> bool {
        p.untrackable
    }

    fn protects(player: &Player) -> (b: bool) {
        player.untrackable.is_some()
    }
}

#[derive(Clone, Copy, Debug, Default)]
pub struct Saved;

#[derive(Clone, Copy, Debug, Default)]
pub struct Macho;

#[derive(Clone, Copy, Debug, Default)]
pub struct Blocked;

#[derive(Clone, Copy, Debug, Default)]
pub struct Breakthrough;

#[derive(Clone, Copy, Debug, Default)]
pub struct Visiting;

} // verus!
