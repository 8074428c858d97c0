//! The night actions, and the state that each keeps: whether it is in use
//! tonight, and on whom.

use vstd::prelude::*;
use crate::components::PlayerRef;

verus! {

/// The mathematical content of an action record.
pub struct ActionModel {
    pub active: bool,
    pub target: Option<PlayerRef>,
}

/// The record of a freshly granted action: not in use, aimed at nobody.
pub open spec fn idle() -> ActionModel {
    ActionModel { active: false, target: None }
}

/// The record of an action once the night's target is known: in use exactly
/// when there is somebody to use it on.
pub open spec fn aimed(target: Option<PlayerRef>) -> ActionModel {
    ActionModel { active: target is Some, target }
}

/// The state of one night action of a player: whether it is in use tonight, and on whom.
pub trait Action: Sized {
    /// What the record holds.
    spec fn state(&self) -> ActionModel;

    fn new() -> (a: Self)
        ensures
            a.state() == idle(),
    ;

    fn active(&self) -> (b: bool)
        ensures
            b == self.state().active,
    ;

    fn target(&self) -> (t: &Option<PlayerRef>)
        ensures
            *t == self.state().target,
    ;

    /// Points the action at tonight's target, or puts it to rest when there is none.
    fn aim(&mut self, target: Option<PlayerRef>)
        ensures
            final(self).state() == aimed(target),
    ;
}

/// Learn whether the target is innocent or guilty.
#[derive(Debug)]
pub struct Cop {
    active: bool,
    target: Option<PlayerRef>,
}

impl Action for Cop {
    closed spec fn state(&self) -> ActionModel {
        ActionModel { active: self.active, target: self.target }
    }

    fn new() -> (a: Cop) {
        Cop { active: false, target: None }
    }

    fn active(&self) -> (b: bool) {
        self.active
    }

    fn target(&self) -> (t: &Option<PlayerRef>) {
        &self.target
    }

    fn aim(&mut self, target: Option<PlayerRef>) {
        self.active = target.is_some();
        self.target = target;
    }
}

/// Learn the target's role.
#[derive(Debug)]
pub struct Detective {
    active: bool,
    target: Option<PlayerRef>,
}

impl Action for Detective {
    closed spec fn state(&self) -> ActionModel {
        ActionModel { active: self.active, target: self.target }
    }

    fn new() -> (a: Detective) {
        Detective { active: false, target: None }
    }

    fn active(&self) -> (b: bool) {
        self.active
    }

    fn target(&self) -> (t: &Option<PlayerRef>) {
        &self.target
    }

    fn aim(&mut self, target: Option<PlayerRef>) {
        self.active = target.is_some();
        self.target = target;
    }
}

/// Learn whom the target visited.
#[derive(Debug)]
pub struct Track {
    active: bool,
    target: Option<PlayerRef>,
}

impl Action for Track {
    closed spec fn state(&self) -> ActionModel {
        ActionModel { active: self.active, target: self.target }
    }

    fn new() -> (a: Track) {
        Track { active: false, target: None }
    }

    fn active(&self) -> (b: bool) {
        self.active
    }

    fn target(&self) -> (t: &Option<PlayerRef>) {
        &self.target
    }

    fn aim(&mut self, target: Option<PlayerRef>) {
        self.active = target.is_some();
        self.target = target;
    }
}

/// Learn who visited the target.
#[derive(Debug)]
pub struct Watch {
    active: bool,
    target: Option<PlayerRef>,
}

impl Action for Watch {
    closed spec fn state(&self) -> ActionModel {
        ActionModel { active: self.active, target: self.target }
    }

    fn new() -> (a: Watch) {
        Watch { active: false, target: None }
    }

    fn active(&self) -> (b: bool) {
        self.active
    }

    fn target(&self) -> (t: &Option<PlayerRef>) {
        &self.target
    }

    fn aim(&mut self, target: Option<PlayerRef>) {
        self.active = target.is_some();
        self.target = target;
    }
}

/// Stop the target's own action for the night.
#[derive(Debug)]
pub struct Block {
    active: bool,
    target: Option<PlayerRef>,
}

impl Action for Block {
    closed spec fn state(&self) -> ActionModel {
        ActionModel { active: self.active, target: self.target }
    }

    fn new() -> (a: Block) {
        Block { active: false, target: None }
    }

    fn active(&self) -> (b: bool) {
        self.active
    }

    fn target(&self) -> (t: &Option<PlayerRef>) {
        &self.target
    }

    fn aim(&mut self, target: Option<PlayerRef>) {
        self.active = target.is_some();
        self.target = target;
    }
}

/// Protect the target from being killed tonight.
#[derive(Debug)]
pub struct Save {
    active: bool,
    target: Option<PlayerRef>,
}

impl Action for Save {
    closed spec fn state(&self) -> ActionModel {
        ActionModel { active: self.active, target: self.target }
    }

    fn new() -> (a: Save) {
        Save { active: false, target: None }
    }

    fn active(&self) -> (b: bool) {
        self.active
    }

    fn target(&self) -> (t: &Option<PlayerRef>) {
        &self.target
    }

    fn aim(&mut self, target: Option<PlayerRef>) {
        self.active = target.is_some();
        self.target = target;
    }
}

/// Kill the target.
#[derive(Debug)]
pub struct Kill {
    active: bool,
    target: Option<PlayerRef>,
}

impl Action for Kill {
    closed spec fn state(&self) -> ActionModel {
        ActionModel { active: self.active, target: self.target }
    }

    fn new() -> (a: Kill) {
        Kill { active: false, target: None }
    }

    fn active(&self) -> (b: bool) {
        self.active
    }

    fn target(&self) -> (t: &Option<PlayerRef>) {
        &self.target
    }

    fn aim(&mut self, target: Option<PlayerRef>) {
        self.active = target.is_some();
        self.target = target;
    }
}

} // verus!
