//! The reports of a night, and their text.

use vstd::prelude::*;
use vstd::string::*;
use crate::components::{Modifier, Modifiers, PlayerRef, Role};
use crate::entities::{Player, PlayerModel};
use crate::store::{PlayerStore, StoreModel};
use crate::systems::alive;

verus! {

/// What the night came to for one player, as it is handed to whoever reports it.
#[derive(Debug)]
pub struct Report {
    pub role: Role,
    /// The player's modifiers, each followed by a space.
    pub modifiers: String,
    pub name: String,
    /// The name of the target, or "nobody".
    pub target: String,
    pub success: bool,
    pub value: String,
    /// Whether the player died this night.
    pub died: bool,
}

/// The mathematical content of a `Report`.
pub struct ReportModel {
    pub role: Role,
    pub modifiers: Seq<char>,
    pub name: Seq<char>,
    pub target: Seq<char>,
    pub success: bool,
    pub value: Seq<char>,
    pub died: bool,
}

impl View for Report {
    type V = ReportModel;

    open spec fn view(&self) -> ReportModel {
        ReportModel {
            role: self.role,
            modifiers: self.modifiers@,
            name: self.name@,
            target: self.target@,
            success: self.success,
            value: self.value@,
            died: self.died,
        }
    }
}

/// The modifiers as text: each one's name followed by a space, in the order given.
pub open spec fn modifiers_text(modifiers: Seq<Modifier>) -> Seq<char>
    decreases modifiers.len(),
{
    if modifiers.len() == 0 {
        Seq::empty()
    } else {
        modifiers_text(modifiers.drop_last()) + modifiers.last().text() + " "@
    }
}

/// The text that stands for a success or a failure.
pub open spec fn verdict(success: bool) -> Seq<char> {
    if success {
        "success"@
    } else {
        "fail"@
    }
}

/// The line that says what a player did and what came of it.
pub open spec fn summary(r: ReportModel) -> Seq<char> {
    r.modifiers + r.role.text() + " "@ + r.name + " targets "@ + r.target + " - "@ + verdict(
        r.success,
    ) + " - "@ + r.value
}

/// The line that says that a player died.
pub open spec fn obituary(r: ReportModel) -> Seq<char> {
    r.role.text() + " "@ + r.name + " died"@
}

impl Report {
    /// The lines of text for this report: what the player did, and, for a
    /// player who died this night, that they died.
    pub fn lines(&self) -> (lines: Vec<String>)
        ensures
            lines.len() == if self.died { 2int } else { 1int },
            lines[0]@ == summary(self@),
            self.died ==> lines[1]@ == obituary(self@),
    {
        let mut lines: Vec<String> = Vec::new();
        let mut text = self.modifiers.clone();
        let role = self.role.to_string();
        text.append(role.as_str());
        text.append(" ");
        text.append(self.name.as_str());
        text.append(" targets ");
        text.append(self.target.as_str());
        text.append(" - ");
        if self.success {
            text.append("success");
        } else {
            text.append("fail");
        }
        text.append(" - ");
        text.append(self.value.as_str());
        lines.push(text);
        if self.died {
            let mut text = role;
            text.append(" ");
            text.append(self.name.as_str());
            text.append(" died");
            lines.push(text);
        }
        lines
    }
}

/// Whether `p` holds a night action of any kind.
pub open spec fn holds_action(p: PlayerModel) -> bool {
    ||| p.cop is Some
    ||| p.detective is Some
    ||| p.track is Some
    ||| p.watch is Some
    ||| p.block is Some
    ||| p.save is Some
    ||| p.kill is Some
}

/// Whether there is something to report about `p`: a player who lives or
/// died this very night, who holds an action and has a result.
pub open spec fn reportable(p: PlayerModel) -> bool {
    alive(p) && holds_action(p) && p.result is Some
}

/// The text that stands for a target.
pub open spec fn target_text(s: StoreModel, target: Option<PlayerRef>) -> Seq<char> {
    match target {
        Some(t) => s.at(t).name,
        None => "nobody"@,
    }
}

/// The report about player `i`.
pub open spec fn report_of(s: StoreModel, i: int) -> ReportModel {
    let p = s.players[i];
    ReportModel {
        role: p.role,
        modifiers: modifiers_text(p.modifiers),
        name: p.name,
        target: target_text(s, p.target),
        success: p.result.unwrap().success,
        value: p.result.unwrap().val,
        died: p.dead is Some,
    }
}

/// The reports about the players before `upto`, in the order of the store.
pub open spec fn reports(s: StoreModel, upto: int) -> Seq<ReportModel>
    decreases upto,
{
    if upto <= 0 {
        Seq::empty()
    } else {
        let earlier = reports(s, upto - 1);
        if reportable(s.players[upto - 1]) {
            earlier.push(report_of(s, upto - 1))
        } else {
            earlier
        }
    }
}

/// The contents of a list of reports.
pub open spec fn contents(list: Seq<Report>) -> Seq<ReportModel> {
    Seq::new(list.len(), |k: int| list[k]@)
}

fn modifiers_line(modifiers: &Modifiers) -> (text: String)
    ensures
        text@ == modifiers_text(modifiers@),
{
    let mut text = String::new();
    let n = modifiers.0.len();
    let mut i: usize = 0;
    proof {
        assert(modifiers@.take(0) =~= Seq::<Modifier>::empty());
    }
    while i < n
        invariant
            i <= n,
            n == modifiers@.len(),
            text@ == modifiers_text(modifiers@.take(i as int)),
        decreases n - i,
    {
        proof {
            let next = modifiers@.take(i as int + 1);
            assert(next.drop_last() =~= modifiers@.take(i as int));
            assert(next.last() == modifiers@[i as int]);
        }
        let word = modifiers.0[i].to_string();
        text.append(word.as_str());
        text.append(" ");
        i = i + 1;
    }
    proof {
        assert(modifiers@.take(n as int) =~= modifiers@);
    }
    text
}

fn holds_any(player: &Player) -> (b: bool)
    ensures
        b == holds_action(player@),
{
    player.cop.is_some() || player.detective.is_some() || player.track.is_some()
        || player.watch.is_some() || player.block.is_some() || player.save.is_some()
        || player.kill.is_some()
}

/// Report night results.
pub struct PrintResults;

impl PrintResults {
    fn report(store: &PlayerStore, i: usize) -> (r: Report)
        requires
            store.wf(),
            i < store@.len(),
            store@.players[i as int].result is Some,
        ensures
            r@ == report_of(store@, i as int),
    {
        let player = store.get(PlayerRef(i));
        proof {
            assert(store@.sound(store@.players[i as int]));
        }
        let target_name = match player.target.0 {
            Some(t) => store.get(t).name.0.clone(),
            None => String::from_str("nobody"),
        };
        let result = player.result.as_ref().unwrap();
        Report {
            role: player.role,
            modifiers: modifiers_line(&player.modifiers),
            name: player.name.0.clone(),
            target: target_name,
            success: result.success,
            value: result.val.clone(),
            died: player.dead.is_some(),
        }
    }

    /// The reports of the night, one for each player about whom there is
    /// something to report, in the order of the store. The store is left as it is.
    pub fn run(&mut self, store: &PlayerStore) -> (list: Vec<Report>)
        requires
            store.wf(),
        ensures
            contents(list@) == reports(store@, store@.len()),
    {
        let n = store.len();
        let mut list: Vec<Report> = Vec::new();
        let mut i: usize = 0;
        proof {
            assert(contents(list@) =~= reports(store@, 0));
        }
        while i < n
            invariant
                i <= n,
                n == store@.len(),
                store.wf(),
                contents(list@) == reports(store@, i as int),
            decreases n - i,
        {
            let player = store.get(PlayerRef(i));
            let ghost earlier = list@;
            if player.long_dead.is_none() && holds_any(player) && player.result.is_some() {
                let r = Self::report(store, i);
                list.push(r);
                proof {
                    assert(contents(list@) =~= contents(earlier).push(r@));
                }
            }
            i = i + 1;
        }
        list
    }
}

} // verus!
