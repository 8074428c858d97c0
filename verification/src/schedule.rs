//! The order of a night: the phases, what each is declared to depend on, the
//! order in which they run, and the run itself.

use vstd::prelude::*;
use crate::components::PlayerRef;
use crate::laws::lemma_effects_last_one_night;
use crate::resources::CurrentNight;
use crate::store::{PlayerStore, StoreModel};
use crate::systems::blocking::blocks_resolved;
use crate::systems::cleanup::{deaths_processed, effects_removed};
use crate::systems::info::infos_resolved;
use crate::systems::killing::kills_resolved;
use crate::systems::protection::saves_resolved;
use crate::systems::reporting::{contents, reports};
use crate::systems::targets::{choices_fit, targets_updated};
use crate::systems::visits::visits_updated;
use crate::systems::watching::watches_resolved;
use crate::systems::{
    BlockActions, CopActions, DetActions, FinishNight, KillActions, PrintResults, ProcessDeaths,
    RemoveEffects, Report, ReportModel, SaveActions, TrackActions, UpdateTargets, UpdateVisits,
    WatchActions,
};
use crate::components::actions::{Cop, Detective, Track};
use crate::components::attributes::{Innocence, Uncoppable, Undetectable, Untrackable};
use crate::components::{Position, Role};

verus! {

/// The steps of a night.
#[derive(Clone, Copy, Debug, PartialEq, Eq, Structural)]
pub enum Phase {
    /// Every living player takes the target they submitted.
    Targets,
    /// Blocks are resolved.
    Blockers,
    /// Everybody moves, unless blocked.
    Visits,
    Cops,
    Detectives,
    Trackers,
    Watchers,
    /// Protection is resolved.
    Doctors,
    /// Kills are resolved.
    Killers,
    /// The results of the night are handed out.
    Results,
    /// The effects of the night are lifted.
    RemoveEffects,
    /// Those who died become long dead.
    Deaths,
    /// The night is over.
    AdvanceNight,
}

impl Phase {
    /// The declared dependencies: the phases whose settled outcome this
    /// phase must see before it begins.
    pub open spec fn requirements(self) -> Seq<Phase> {
        match self {
            Phase::Targets => seq![],
            Phase::Blockers => seq![Phase::Targets],
            Phase::Visits => seq![Phase::Targets, Phase::Blockers],
            Phase::Cops => seq![Phase::Blockers],
            Phase::Detectives => seq![Phase::Blockers, Phase::Cops],
            Phase::Trackers => seq![Phase::Blockers, Phase::Visits],
            Phase::Watchers => seq![Phase::Blockers, Phase::Visits],
            Phase::Doctors => seq![
                Phase::Cops,
                Phase::Detectives,
                Phase::Trackers,
                Phase::Watchers,
            ],
            Phase::Killers => seq![Phase::Doctors],
            Phase::Results => seq![Phase::Killers],
            Phase::RemoveEffects => seq![Phase::Results],
            Phase::Deaths => seq![Phase::Results],
            Phase::AdvanceNight => seq![Phase::RemoveEffects, Phase::Deaths],
        }
    }

    /// Whether this phase is declared to depend on `other`.
    pub open spec fn depends_on(self, other: Phase) -> bool {
        self.requirements().contains(other)
    }

    /// The place of the phase in the order of a night.
    pub open spec fn rank(self) -> int {
        match self {
            Phase::Targets => 0,
            Phase::Blockers => 1,
            Phase::Visits => 2,
            Phase::Cops => 3,
            Phase::Detectives => 4,
            Phase::Trackers => 5,
            Phase::Watchers => 6,
            Phase::Doctors => 7,
            Phase::Killers => 8,
            Phase::Results => 9,
            Phase::RemoveEffects => 10,
            Phase::Deaths => 11,
            Phase::AdvanceNight => 12,
        }
    }

    /// The phases that this one is declared to depend on.
    pub fn dependencies(&self) -> (deps: Vec<Phase>)
        ensures
            deps@ == self.requirements(),
    {
        let deps = match self {
            Phase::Targets => Vec::new(),
            Phase::Blockers => vec![Phase::Targets],
            Phase::Visits => vec![Phase::Targets, Phase::Blockers],
            Phase::Cops => vec![Phase::Blockers],
            Phase::Detectives => vec![Phase::Blockers, Phase::Cops],
            Phase::Trackers => vec![Phase::Blockers, Phase::Visits],
            Phase::Watchers => vec![Phase::Blockers, Phase::Visits],
            Phase::Doctors => vec![
                Phase::Cops,
                Phase::Detectives,
                Phase::Trackers,
                Phase::Watchers,
            ],
            Phase::Killers => vec![Phase::Doctors],
            Phase::Results => vec![Phase::Killers],
            Phase::RemoveEffects => vec![Phase::Results],
            Phase::Deaths => vec![Phase::Results],
            Phase::AdvanceNight => vec![Phase::RemoveEffects, Phase::Deaths],
        };
        assert(deps@ =~= self.requirements());
        deps
    }

    /// The name under which the phase is known.
    pub open spec fn label(self) -> Seq<char> {
        match self {
            Phase::Targets => "update_targets"@,
            Phase::Blockers => "blockers"@,
            Phase::Visits => "update_visits"@,
            Phase::Cops => "cops"@,
            Phase::Detectives => "detectives"@,
            Phase::Trackers => "trackers"@,
            Phase::Watchers => "watchers"@,
            Phase::Doctors => "doctors"@,
            Phase::Killers => "killers"@,
            Phase::Results => "results"@,
            Phase::RemoveEffects => "remove_effects"@,
            Phase::Deaths => "deaths"@,
            Phase::AdvanceNight => "advance_night"@,
        }
    }

    pub fn name(&self) -> (name: &'static str)
        ensures
            name@ == self.label(),
    {
        match self {
            Phase::Targets => "update_targets",
            Phase::Blockers => "blockers",
            Phase::Visits => "update_visits",
            Phase::Cops => "cops",
            Phase::Detectives => "detectives",
            Phase::Trackers => "trackers",
            Phase::Watchers => "watchers",
            Phase::Doctors => "doctors",
            Phase::Killers => "killers",
            Phase::Results => "results",
            Phase::RemoveEffects => "remove_effects",
            Phase::Deaths => "deaths",
            Phase::AdvanceNight => "advance_night",
        }
    }
}

/// The phases in the order in which a night runs them.
pub open spec fn order() -> Seq<Phase> {
    seq![
        Phase::Targets,
        Phase::Blockers,
        Phase::Visits,
        Phase::Cops,
        Phase::Detectives,
        Phase::Trackers,
        Phase::Watchers,
        Phase::Doctors,
        Phase::Killers,
        Phase::Results,
        Phase::RemoveEffects,
        Phase::Deaths,
        Phase::AdvanceNight,
    ]
}

/// The order of a night holds every phase once, at the place of its rank.
pub proof fn lemma_order_complete()
    ensures
        order().len() == 13,
        forall|p: Phase| 0 <= #[trigger] p.rank() < 13 && order()[p.rank()] == p,
        forall|k: int| 0 <= k < 13 ==> (#[trigger] order()[k]).rank() == k,
{
    assert forall|p: Phase| 0 <= #[trigger] p.rank() < 13 && order()[p.rank()] == p by {}
    assert forall|k: int| 0 <= k < 13 implies (#[trigger] order()[k]).rank() == k by {
        if k == 0 {
        } else if k == 1 {
        } else if k == 2 {
        } else if k == 3 {
        } else if k == 4 {
        } else if k == 5 {
        } else if k == 6 {
        } else if k == 7 {
        } else if k == 8 {
        } else if k == 9 {
        } else if k == 10 {
        } else if k == 11 {
        } else {
        }
    }
}

/// In the order of a night every phase comes after each phase that it is
/// declared to depend on.
pub proof fn lemma_order_respects_dependencies()
    ensures
        forall|a: Phase, b: Phase| #[trigger] a.depends_on(b) ==> b.rank() < a.rank(),
{
    assert forall|a: Phase, b: Phase| #[trigger] a.depends_on(b) implies b.rank() < a.rank() by {
        let needs = a.requirements();
        let k: int = choose|k: int| 0 <= k < needs.len() && needs[k] == b;
        assert(needs[k].rank() < a.rank());
    }
}

/// The order of a night, to run.
pub fn pipeline() -> (phases: Vec<Phase>)
    ensures
        phases@ == order(),
{
    let phases = vec![
        Phase::Targets,
        Phase::Blockers,
        Phase::Visits,
        Phase::Cops,
        Phase::Detectives,
        Phase::Trackers,
        Phase::Watchers,
        Phase::Doctors,
        Phase::Killers,
        Phase::Results,
        Phase::RemoveEffects,
        Phase::Deaths,
        Phase::AdvanceNight,
    ];
    assert(phases@ =~= order());
    phases
}

/// The state that the phases of a night work on: the store, the number of
/// the night, and the reports handed out so far.
pub struct NightModel {
    pub store: StoreModel,
    pub night: u8,
    pub reports: Seq<ReportModel>,
}

/// The number of the night after night `n`; the last night that can be counted has none.
pub open spec fn next_night(n: u8) -> u8 {
    if n < u8::MAX {
        (n + 1) as u8
    } else {
        n
    }
}

/// What one phase makes of the state that it finds, given what the players submitted.
pub open spec fn step(phase: Phase, m: NightModel, choices: Seq<Option<PlayerRef>>) -> NightModel {
    match phase {
        Phase::Targets => NightModel { store: targets_updated(m.store, choices), ..m },
        Phase::Blockers => NightModel { store: blocks_resolved(m.store), ..m },
        Phase::Visits => NightModel { store: visits_updated(m.store), ..m },
        Phase::Cops => NightModel {
            store: infos_resolved::<Cop, Innocence, Uncoppable>(m.store),
            ..m
        },
        Phase::Detectives => NightModel {
            store: infos_resolved::<Detective, Role, Undetectable>(m.store),
            ..m
        },
        Phase::Trackers => NightModel {
            store: infos_resolved::<Track, Position, Untrackable>(m.store),
            ..m
        },
        Phase::Watchers => NightModel { store: watches_resolved(m.store), ..m },
        Phase::Doctors => NightModel { store: saves_resolved(m.store), ..m },
        Phase::Killers => NightModel { store: kills_resolved(m.store, m.night), ..m },
        Phase::Results => NightModel { reports: reports(m.store, m.store.len()), ..m },
        Phase::RemoveEffects => NightModel { store: effects_removed(m.store), ..m },
        Phase::Deaths => NightModel { store: deaths_processed(m.store), ..m },
        Phase::AdvanceNight => NightModel { night: next_night(m.night), ..m },
    }
}

/// What a run of phases, one after the other, makes of a state.
pub open spec fn after(
    phases: Seq<Phase>,
    m: NightModel,
    choices: Seq<Option<PlayerRef>>,
) -> NightModel
    decreases phases.len(),
{
    if phases.len() == 0 {
        m
    } else {
        step(phases.last(), after(phases.drop_last(), m, choices), choices)
    }
}

/// The state that a phase finds when a night is run on `m`: what the phases
/// before it in the order of a night have made of `m`.
pub open spec fn found_by(phase: Phase, m: NightModel, choices: Seq<Option<PlayerRef>>) -> NightModel {
    after(order().take(phase.rank()), m, choices)
}

/// What a whole night makes of a state.
pub open spec fn night_resolved(m: NightModel, choices: Seq<Option<PlayerRef>>) -> NightModel {
    after(order(), m, choices)
}

/// The state that a store, a night counter and a list of reports stand for.
pub open spec fn state_of(store: PlayerStore, night: CurrentNight, list: Seq<Report>) -> NightModel {
    NightModel { store: store@, night: night.0@, reports: contents(list) }
}

/// No phase changes the number of players.
pub proof fn lemma_step_keeps_players(phase: Phase, m: NightModel, choices: Seq<Option<PlayerRef>>)
    ensures
        step(phase, m, choices).store.len() == m.store.len(),
{
}

/// Runs one phase on the state of a night.
pub fn run_phase(
    phase: Phase,
    store: &mut PlayerStore,
    night: &mut CurrentNight,
    targets: &mut UpdateTargets,
    list: &mut Vec<Report>,
)
    requires
        old(store).wf(),
        phase is Targets ==> choices_fit(old(store)@, old(targets)@),
        phase is AdvanceNight ==> old(night).0@ < u8::MAX,
    ensures
        final(store).wf(),
        final(targets)@ == old(targets)@,
        state_of(*final(store), *final(night), final(list)@) == step(
            phase,
            state_of(*old(store), *old(night), old(list)@),
            old(targets)@,
        ),
{
    match phase {
        Phase::Targets => targets.run(store),
        Phase::Blockers => BlockActions.run(store),
        Phase::Visits => UpdateVisits.run(store),
        Phase::Cops => CopActions.run(store),
        Phase::Detectives => DetActions.run(store),
        Phase::Trackers => TrackActions.run(store),
        Phase::Watchers => WatchActions.run(store),
        Phase::Doctors => SaveActions.run(store),
        Phase::Killers => KillActions.run(store, night),
        Phase::Results => {
            *list = PrintResults.run(store);
        },
        Phase::RemoveEffects => RemoveEffects.run(store),
        Phase::Deaths => ProcessDeaths.run(store),
        Phase::AdvanceNight => FinishNight.run(night),
    }
}

/// Runs all phases of a night once, in the order of a night, and hands out the reports.
pub fn run_night(store: &mut PlayerStore, night: &mut CurrentNight, targets: &mut UpdateTargets) -> (list:
    Vec<Report>)
    requires
        old(store).wf(),
        choices_fit(old(store)@, old(targets)@),
        old(night).0@ < u8::MAX,
    ensures
        final(store).wf(),
        final(targets)@ == old(targets)@,
        final(night).0@ == old(night).0@ + 1,
        final(store)@.settled(),
        state_of(*final(store), *final(night), list@) == night_resolved(
            state_of(*old(store), *old(night), Seq::empty()),
            old(targets)@,
        ),
{
    let ghost start = state_of(*store, *night, Seq::empty());
    let ghost choices = targets@;
    let phases = pipeline();
    let mut list: Vec<Report> = Vec::new();
    let mut i: usize = 0;
    proof {
        lemma_order_complete();
        assert(order().take(0) =~= Seq::<Phase>::empty());
        assert(contents(list@) =~= Seq::<ReportModel>::empty());
    }
    while i < phases.len()
        invariant
            i <= 13,
            phases@ == order(),
            order().len() == 13,
            forall|k: int| 0 <= k < 13 ==> (#[trigger] order()[k]).rank() == k,
            store.wf(),
            store@.len() == start.store.len(),
            choices_fit(start.store, choices),
            targets@ == choices,
            start.night < u8::MAX,
            night.0@ == if i < 13 { start.night as int } else { start.night + 1 },
            state_of(*store, *night, list@) == after(order().take(i as int), start, choices),
        decreases 13 - i,
    {
        let phase = phases[i];
        proof {
            assert(order()[i as int].rank() == i);
            assert(order().take(i as int + 1).drop_last() =~= order().take(i as int));
            assert(order().take(i as int + 1).last() == phase);
            lemma_step_keeps_players(phase, state_of(*store, *night, list@), choices);
        }
        run_phase(phase, store, night, targets, &mut list);
        i = i + 1;
    }
    proof {
        assert(order().take(13) =~= order());
        lemma_effects_last_one_night(start, choices);
    }
    list
}

} // verus!
