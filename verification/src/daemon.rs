use crate::helpers::yabai::DisplayInfo;
use crate::name_map::names_in;
use crate::name_map::names_not_in;
use crate::name_map::NameMap;
use crate::sketchybar::default_bar_name;
use crate::sketchybar::SketchyBar;
use crate::state::DaemonState;
use crate::state::QueryError;
use crate::text::decimal;
use crate::text::decimal_string;
use crate::text::texts;
use vstd::prelude::*;

verus! {

/// The seconds between two reconcile passes.
pub const RECONCILE_INTERVAL_SECS: u64 = 5;

/// How the provisioning of one render target ended.
#[derive(Debug, Clone, Copy, PartialEq, Eq, Structural)]
pub enum ProvisionOutcome {
    /// The bar did not take its configuration.
    ConfigureFailed,
    /// The bar was configured, but its items could not all be set up.
    PopulateFailed,
    /// The bar is set up; only hot reloading could not be switched on.
    HotloadFailed,
    /// The bar is set up.
    Ready,
}

impl ProvisionOutcome {
    /// A target is registered once it is configured and populated; hot
    /// reloading is not needed for that.
    pub open spec fn registers(self) -> bool {
        self is HotloadFailed || self is Ready
    }

    /// The outcome of the three stages of provisioning, of which a later one
    /// only counts where the earlier ones succeeded.
    pub open spec fn of_stages(configured: bool, populated: bool, hotloading: bool) -> Self {
        if !configured {
            ProvisionOutcome::ConfigureFailed
        } else if !populated {
            ProvisionOutcome::PopulateFailed
        } else if !hotloading {
            ProvisionOutcome::HotloadFailed
        } else {
            ProvisionOutcome::Ready
        }
    }

    pub fn from_stages(configured: bool, populated: bool, hotloading: bool) -> (outcome: Self)
        ensures
            outcome == Self::of_stages(configured, populated, hotloading),
    {
        if !configured {
            ProvisionOutcome::ConfigureFailed
        } else if !populated {
            ProvisionOutcome::PopulateFailed
        } else if !hotloading {
            ProvisionOutcome::HotloadFailed
        } else {
            ProvisionOutcome::Ready
        }
    }

    pub fn is_registered(&self) -> (registered: bool)
        ensures
            registered == self.registers(),
    {
        match self {
            ProvisionOutcome::HotloadFailed | ProvisionOutcome::Ready => true,
            _ => false,
        }
    }
}

/// The name of the bar that serves a display: the default name on the
/// built-in display, `external_` and the display's index on any other.
pub open spec fn bar_name_of(display: DisplayInfo) -> Seq<char> {
    if display.is_builtin {
        default_bar_name()
    } else {
        "external_"@ + decimal(display.index as nat)
    }
}

/// The bar handle that serves a display.
pub fn bar_for(display: &DisplayInfo) -> (bar: SketchyBar)
    ensures
        bar@ == bar_name_of(*display),
{
    let mut bar = SketchyBar::new();
    if !display.is_builtin {
        let mut name = String::from_str("external_");
        name.append(decimal_string(display.index).as_str());
        bar.set_bar_name(name.as_str());
    }
    bar
}

/// The attached displays and the render targets that serve them, as
/// mathematical maps: each display under its id, each bar's name under the id
/// of its display.
pub struct Topology {
    pub displays: Map<Seq<char>, DisplayInfo>,
    pub bars: Map<Seq<char>, Seq<char>>,
}

impl Topology {
    /// The known displays that have no render target: never provisioned, or
    /// provisioned without success.
    pub open spec fn pending(self) -> Set<Seq<char>> {
        self.displays.dom().difference(self.bars.dom())
    }

    /// The render targets whose display is not among the fresh ones.
    pub open spec fn disappeared(self, fresh: Map<Seq<char>, DisplayInfo>) -> Set<Seq<char>> {
        self.bars.dom().difference(fresh.dom())
    }

    /// The topology after a fresh report of the displays: the report replaces
    /// the known displays, and only the targets of reported displays stay.
    pub open spec fn observe(self, fresh: Map<Seq<char>, DisplayInfo>) -> Topology {
        Topology { displays: fresh, bars: self.bars.restrict(fresh.dom()) }
    }

    /// The topology after the provisioning of one display ended: a pending
    /// display gets its target where the outcome registers, and nothing
    /// changes otherwise.
    pub open spec fn register(self, id: Seq<char>, outcome: ProvisionOutcome) -> Topology {
        if outcome.registers() && self.pending().contains(id) {
            Topology {
                displays: self.displays,
                bars: self.bars.insert(id, bar_name_of(self.displays[id])),
            }
        } else {
            self
        }
    }

    /// The topology after a run of provisionings ended, in order.
    pub open spec fn register_all(self, ended: Seq<(Seq<char>, ProvisionOutcome)>) -> Topology
        decreases ended.len(),
    {
        if ended.len() == 0 {
            self
        } else {
            self.register_all(ended.drop_last()).register(ended.last().0, ended.last().1)
        }
    }

    /// Every render target serves a known display.
    pub open spec fn wf(self) -> bool {
        self.bars.dom().subset_of(self.displays.dom())
    }
}

/// The provisioning of one render target that a pass asks for.
#[derive(Debug)]
pub struct Provision {
    pub display_id: String,
    pub display: DisplayInfo,
    pub bar: SketchyBar,
}

/// What a reconcile pass did and what it asks for.
#[derive(Debug)]
pub struct ReconcilePlan {
    /// The ids of the displays whose render target was dropped.
    pub removed: Vec<String>,
    /// The render targets to provision, in the order of the report.
    pub provision: Vec<Provision>,
}

/// The ids of a sequence of provisionings, in order.
pub open spec fn provision_ids(jobs: Seq<Provision>) -> Seq<Seq<char>> {
    jobs.map_values(|job: Provision| job.display_id@)
}

/// Keeps the render targets in step with the attached displays.
pub struct SketchyBarDaemon {
    pub displays: NameMap<DisplayInfo>,
    pub bars: NameMap<SketchyBar>,
}

/// The names of a table of bars, under the same ids.
pub open spec fn bar_names(bars: Map<Seq<char>, SketchyBar>) -> Map<Seq<char>, Seq<char>> {
    bars.map_values(|bar: SketchyBar| bar@)
}

impl View for SketchyBarDaemon {
    type V = Topology;

    open spec fn view(&self) -> Topology {
        Topology { displays: self.displays@, bars: bar_names(self.bars@) }
    }
}

impl SketchyBarDaemon {
    /// Both tables are well formed.
    pub open spec fn wf(&self) -> bool {
        &&& self.displays.wf()
        &&& self.bars.wf()
    }

    /// A daemon that knows no display yet.
    pub fn new() -> (daemon: Self)
        ensures
            daemon.wf(),
            daemon@.wf(),
            daemon@ == (Topology { displays: Map::empty(), bars: Map::empty() }),
            daemon.displays.names() == Seq::<Seq<char>>::empty(),
            daemon.bars@ == Map::<Seq<char>, SketchyBar>::empty(),
            daemon.bars.names() == Seq::<Seq<char>>::empty(),
    {
        let daemon = SketchyBarDaemon { displays: NameMap::new(), bars: NameMap::new() };
        assert(daemon@.bars =~= Map::empty());
        daemon
    }

    /// The provisionings that a report of the displays asks for: one for
    /// every reported display without a render target, in the order of the
    /// report.
    fn missing_targets(&self, fresh: &NameMap<DisplayInfo>) -> (jobs: Vec<Provision>)
        requires
            self.bars.wf(),
            fresh.wf(),
        ensures
            provision_ids(jobs@) == names_not_in(fresh.names(), self.bars@.dom()),
            forall|i: int|
                0 <= i < jobs.len() ==> {
                    &&& fresh@.contains_key((#[trigger] jobs[i]).display_id@)
                    &&& jobs[i].display == fresh@[jobs[i].display_id@]
                    &&& jobs[i].bar@ == bar_name_of(jobs[i].display)
                },
    {
        let ghost served = self.bars@.dom();
        let mut jobs: Vec<Provision> = Vec::new();
        let mut i: usize = 0;
        assert(fresh.names().take(0) =~= Seq::<Seq<char>>::empty());
        while i < fresh.len()
            invariant
                self.bars.wf(),
                fresh.wf(),
                served == self.bars@.dom(),
                0 <= i <= fresh.names().len(),
                provision_ids(jobs@) == names_not_in(fresh.names().take(i as int), served),
                forall|j: int|
                    0 <= j < jobs.len() ==> {
                        &&& fresh@.contains_key((#[trigger] jobs[j]).display_id@)
                        &&& jobs[j].display == fresh@[jobs[j].display_id@]
                        &&& jobs[j].bar@ == bar_name_of(jobs[j].display)
                    },
            decreases fresh.names().len() - i,
        {
            let id = fresh.name_at(i);
            proof {
                assert(fresh.names().take(i + 1).drop_last() =~= fresh.names().take(i as int));
                assert(fresh.names().take(i + 1).last() == id@);
            }
            if !self.bars.contains_key(id.as_str()) {
                let display = *fresh.value_at(i);
                let ghost before = jobs@;
                jobs.push(Provision { display_id: id.clone(), display, bar: bar_for(&display) });
                assert(provision_ids(jobs@) =~= provision_ids(before).push(id@));
            }
            i += 1;
        }
        assert(fresh.names().take(i as int) =~= fresh.names());
        jobs
    }

    /// One reconcile pass over the outcome of a query of the displays. A
    /// failed query changes nothing and its error is handed on. A report
    /// replaces the known displays, drops the render targets of the displays
    /// that are gone, and asks for a provisioning of every reported display
    /// that has no render target.
    pub fn reconcile(&mut self, queried: Result<NameMap<DisplayInfo>, QueryError>) -> (plan: Result<
        ReconcilePlan,
        QueryError,
    >)
        requires
            old(self).wf(),
            queried matches Ok(fresh) ==> fresh.wf(),
        ensures
            final(self).wf(),
            match queried {
                Ok(fresh) => {
                    &&& plan matches Ok(plan)
                    &&& final(self)@ == old(self)@.observe(fresh@)
                    &&& final(self)@.wf()
                    &&& final(self).displays == fresh
                    &&& final(self).bars.names() == names_in(
                        old(self).bars.names(),
                        fresh@.dom(),
                    )
                    &&& texts(plan.removed@) == names_not_in(old(self).bars.names(), fresh@.dom())
                    &&& provision_ids(plan.provision@) == names_not_in(
                        fresh.names(),
                        old(self).bars@.dom(),
                    )
                    &&& forall|i: int|
                        0 <= i < plan.provision.len() ==> {
                            &&& fresh@.contains_key((#[trigger] plan.provision[i]).display_id@)
                            &&& plan.provision[i].display == fresh@[plan.provision[i].display_id@]
                            &&& plan.provision[i].bar@ == bar_name_of(plan.provision[i].display)
                        }
                },
                Err(error) => plan == Err::<ReconcilePlan, QueryError>(error) && *final(self)
                    == *old(self),
            },
    {
        match queried {
            Ok(fresh) => {
                let provision = self.missing_targets(&fresh);
                let removed = self.bars.retain_names_of(&fresh);
                self.displays = fresh;
                proof {
                    assert(self@.bars =~= old(self)@.bars.restrict(fresh@.dom()));
                }
                Ok(ReconcilePlan { removed, provision })
            },
            Err(error) => Err(error),
        }
    }

    /// Takes in how the provisioning of one display ended. Where the outcome
    /// registers and the display is known and has no render target, its bar
    /// is registered; otherwise nothing changes, and the display stays
    /// pending for the next pass.
    pub fn complete_provision(&mut self, display_id: &str, outcome: ProvisionOutcome) -> (registered:
        bool)
        requires
            old(self).wf(),
        ensures
            final(self).wf(),
            final(self)@ == old(self)@.register(display_id@, outcome),
            old(self)@.wf() ==> final(self)@.wf(),
            registered == (outcome.registers() && old(self)@.pending().contains(display_id@)),
            final(self).displays == old(self).displays,
    {
        if !outcome.is_registered() || self.bars.contains_key(display_id) {
            proof {
                assert(self.bars@.contains_key(display_id@) == self@.bars.contains_key(
                    display_id@,
                ));
            }
            return false;
        }
        match self.displays.get(display_id) {
            Some(display) => {
                let bar = bar_for(display);
                self.bars.insert(String::from_str(display_id), bar);
                proof {
                    assert(self@.bars =~= old(self)@.bars.insert(
                        display_id@,
                        bar_name_of(old(self)@.displays[display_id@]),
                    ));
                }
                true
            },
            None => false,
        }
    }

    /// Copies the known displays into the session snapshot.
    pub fn mirror_displays(&self, state: &mut DaemonState)
        requires
            self.wf(),
        ensures
            final(state).wf(),
            final(state)@.displays == self@.displays,
            final(state).displays.names() == self.displays.names(),
            final(state).spaces == old(state).spaces,
            final(state).windows == old(state).windows,
            final(state).current_app == old(state).current_app,
    {
        state.update_displays(self.displays.copy());
    }
}

/// A render target whose display is still reported is neither dropped nor
/// provisioned again, whatever else the report holds.
pub proof fn law_active_target_kept(
    known: Topology,
    fresh: Map<Seq<char>, DisplayInfo>,
    id: Seq<char>,
)
    requires
        known.bars.contains_key(id),
        fresh.contains_key(id),
    ensures
        !known.disappeared(fresh).contains(id),
        !known.observe(fresh).pending().contains(id),
        known.observe(fresh).bars.contains_key(id),
        known.observe(fresh).bars[id] == known.bars[id],
{
}

/// A provisioning that does not register leaves its display pending, so the
/// next pass asks for it again.
pub proof fn law_failed_provision_retried(
    known: Topology,
    id: Seq<char>,
    outcome: ProvisionOutcome,
)
    requires
        known.pending().contains(id),
        !outcome.registers(),
    ensures
        known.register(id, outcome) == known,
        known.register(id, outcome).observe(known.displays).pending().contains(id),
{
}

/// Registrations change neither the known displays nor the fact that every
/// render target serves a known display.
pub proof fn lemma_register_all_keeps(known: Topology, ended: Seq<(Seq<char>, ProvisionOutcome)>)
    requires
        known.wf(),
    ensures
        known.register_all(ended).wf(),
        known.register_all(ended).displays == known.displays,
    decreases ended.len(),
{
    if ended.len() > 0 {
        lemma_register_all_keeps(known, ended.drop_last());
    }
}

/// A second pass over an unchanged set of displays does nothing, once every
/// provisioning that the first pass asked for has registered: it drops no
/// target, asks for none, and leaves the topology as it is.
pub proof fn law_reconcile_idempotent(
    known: Topology,
    fresh: Map<Seq<char>, DisplayInfo>,
    ended: Seq<(Seq<char>, ProvisionOutcome)>,
)
    requires
        known.observe(fresh).register_all(ended).pending() == Set::<Seq<char>>::empty(),
    ensures
        ({
            let settled = known.observe(fresh).register_all(ended);
            &&& settled.disappeared(fresh) == Set::<Seq<char>>::empty()
            &&& settled.observe(fresh).pending() == Set::<Seq<char>>::empty()
            &&& settled.observe(fresh) == settled
        }),
{
    let first = known.observe(fresh);
    let settled = first.register_all(ended);
    lemma_register_all_keeps(first, ended);
    assert(settled.disappeared(fresh) =~= Set::<Seq<char>>::empty());
    assert(settled.bars.restrict(fresh.dom()) =~= settled.bars);
    assert(settled.observe(fresh).pending() =~= settled.pending());
}

} // verus!
