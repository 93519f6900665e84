use crate::name_map::NameMap;
use crate::sketchybar::dispatch_records;
use crate::sketchybar::Dispatch;
use crate::sketchybar::SketchyBar;
use crate::text::texts;
use vstd::prelude::*;

verus! {

/// The periodic tasks of the daemon. The set is fixed.
#[derive(Debug, Clone, Copy, PartialEq, Eq, Structural)]
pub enum TaskKind {
    /// Refreshes the session snapshot.
    StateSync,
    /// Renders the clock.
    Clock,
    /// Renders the battery level.
    Battery,
    /// Renders the keyboard layout.
    Keyboard,
    /// Renders the spaces from the snapshot.
    Space,
    /// Renders the front application from the snapshot.
    App,
    /// Renders the focused window from the snapshot.
    Window,
}

/// The longest interval of any task, in seconds.
pub const MAX_INTERVAL_SECS: u64 = 30;

impl TaskKind {
    /// The seconds between two runs of a task.
    pub open spec fn interval(self) -> u64 {
        match self {
            TaskKind::StateSync => 2,
            TaskKind::Clock => 1,
            TaskKind::Battery => 30,
            TaskKind::Keyboard => 5,
            TaskKind::Space => 1,
            TaskKind::App => 1,
            TaskKind::Window => 1,
        }
    }

    /// Whether a task's unit of work reads the session snapshot.
    pub open spec fn snapshot_reader(self) -> bool {
        self is Space || self is App || self is Window
    }

    pub fn interval_secs(self) -> (secs: u64)
        ensures
            secs == self.interval(),
            1 <= secs <= MAX_INTERVAL_SECS,
    {
        match self {
            TaskKind::StateSync => 2,
            TaskKind::Clock => 1,
            TaskKind::Battery => 30,
            TaskKind::Keyboard => 5,
            TaskKind::Space => 1,
            TaskKind::App => 1,
            TaskKind::Window => 1,
        }
    }

    pub fn reads_snapshot(self) -> (reads: bool)
        ensures
            reads == self.snapshot_reader(),
    {
        match self {
            TaskKind::Space | TaskKind::App | TaskKind::Window => true,
            _ => false,
        }
    }
}

/// The tasks of the daemon, in the order in which they are started.
pub open spec fn task_set() -> Seq<TaskKind> {
    seq![
        TaskKind::StateSync,
        TaskKind::Clock,
        TaskKind::Battery,
        TaskKind::Keyboard,
        TaskKind::Space,
        TaskKind::App,
        TaskKind::Window,
    ]
}

/// What a task's wait point delivered: its timer, or the cancellation.
#[derive(Debug, Clone, Copy, PartialEq, Eq, Structural)]
pub enum WaitEvent {
    Tick,
    Shutdown,
}

/// What a task does after its wait point.
#[derive(Debug, Clone, Copy, PartialEq, Eq, Structural)]
pub enum TaskAction {
    /// Run the unit of work once, then wait again.
    RunUnit,
    /// Leave the loop.
    Exit,
}

/// The state of one task's loop as a mathematical value.
pub struct TaskModel {
    pub kind: TaskKind,
    pub stopped: bool,
    pub runs: nat,
    pub failures: nat,
}

impl TaskModel {
    /// A task that has not waited yet.
    pub open spec fn fresh(kind: TaskKind) -> TaskModel {
        TaskModel { kind, stopped: false, runs: 0, failures: 0 }
    }

    /// What the task does on an event: it runs its unit on a tick, unless it
    /// has seen the cancellation, now or before.
    pub open spec fn action(self, event: WaitEvent) -> TaskAction {
        if self.stopped || event is Shutdown {
            TaskAction::Exit
        } else {
            TaskAction::RunUnit
        }
    }

    /// The task after an event: the cancellation stops it for good.
    pub open spec fn observe(self, event: WaitEvent) -> TaskModel {
        TaskModel { stopped: self.stopped || event is Shutdown, ..self }
    }

    /// The task after a run of its unit: a failure is counted and stops
    /// nothing.
    pub open spec fn ran(self, succeeded: bool) -> TaskModel {
        TaskModel {
            runs: self.runs + 1,
            failures: if succeeded {
                self.failures
            } else {
                self.failures + 1
            },
            ..self
        }
    }

    /// The task after a sequence of events, each unit of work ending as
    /// `succeeds` says of its event's place.
    pub open spec fn after(self, events: Seq<WaitEvent>, succeeds: spec_fn(int) -> bool) -> TaskModel
        decreases events.len(),
    {
        if events.len() == 0 {
            self
        } else {
            let before = self.after(events.drop_last(), succeeds);
            let waited = before.observe(events.last());
            if before.action(events.last()) is RunUnit {
                waited.ran(succeeds(events.len() - 1))
            } else {
                waited
            }
        }
    }
}

/// The number of ticks before the first cancellation in a sequence of events.
pub open spec fn ticks_before_shutdown(events: Seq<WaitEvent>) -> nat
    decreases events.len(),
{
    if events.len() == 0 || events.first() is Shutdown {
        0
    } else {
        1 + ticks_before_shutdown(events.drop_first())
    }
}

/// One periodic task's loop state: whether it has seen the cancellation, and
/// how its units of work have ended so far.
#[derive(Debug)]
pub struct RefreshTask {
    kind: TaskKind,
    stopped: bool,
    runs: u64,
    failures: u64,
}

impl View for RefreshTask {
    type V = TaskModel;

    closed spec fn view(&self) -> TaskModel {
        TaskModel {
            kind: self.kind,
            stopped: self.stopped,
            runs: self.runs as nat,
            failures: self.failures as nat,
        }
    }
}

impl RefreshTask {
    #[verifier::type_invariant]
    spec fn counted(&self) -> bool {
        self.failures <= self.runs
    }

    pub fn new(kind: TaskKind) -> (task: Self)
        ensures
            task@ == TaskModel::fresh(kind),
    {
        RefreshTask { kind, stopped: false, runs: 0, failures: 0 }
    }

    pub fn kind(&self) -> (kind: TaskKind)
        ensures
            kind == self@.kind,
    {
        self.kind
    }

    pub fn is_stopped(&self) -> (stopped: bool)
        ensures
            stopped == self@.stopped,
    {
        self.stopped
    }

    pub fn runs(&self) -> (runs: u64)
        ensures
            runs == self@.runs,
    {
        self.runs
    }

    pub fn failures(&self) -> (failures: u64)
        ensures
            failures == self@.failures,
            failures <= self@.runs,
    {
        proof {
            use_type_invariant(self);
        }
        self.failures
    }

    /// What the loop does with what its wait point delivered. On a tick it
    /// runs its unit of work; on the cancellation, and ever after, it exits.
    pub fn on_event(&mut self, event: WaitEvent) -> (action: TaskAction)
        ensures
            action == old(self)@.action(event),
            final(self)@ == old(self)@.observe(event),
    {
        proof {
            use_type_invariant(&*self);
        }
        match event {
            WaitEvent::Shutdown => {
                self.stopped = true;
                TaskAction::Exit
            },
            WaitEvent::Tick => {
                if self.stopped {
                    TaskAction::Exit
                } else {
                    TaskAction::RunUnit
                }
            },
        }
    }

    /// Takes in how a unit of work ended. A failure is counted; it neither
    /// stops the task nor delays its next run. Once the run counter is at
    /// its limit nothing is counted any more.
    pub fn record(&mut self, succeeded: bool)
        ensures
            old(self)@.runs < u64::MAX ==> final(self)@ == old(self)@.ran(succeeded),
            old(self)@.runs >= u64::MAX ==> final(self)@ == old(self)@,
    {
        proof {
            use_type_invariant(&*self);
        }
        if self.runs < u64::MAX {
            self.runs = self.runs + 1;
            if !succeeded {
                self.failures = self.failures + 1;
            }
        }
    }
}

/// What the scheduler waits for: the cancellation, or the end of one of its
/// tasks.
#[derive(Debug, Clone, Copy, PartialEq, Eq, Structural)]
pub enum SchedulerEvent {
    ShutdownSignal,
    TaskExited(TaskKind),
}

/// What the scheduler does on an event.
#[derive(Debug, Clone, Copy, PartialEq, Eq, Structural)]
pub enum SchedulerAction {
    /// The cancellation came: return.
    Finish,
    /// A task ended though no cancellation had come: report it, ask the other
    /// tasks to stop, and return.
    FinishAfterLoss(TaskKind),
    /// The scheduler is not running: nothing is to be done.
    Ignore,
}

/// Where the scheduler stands.
#[derive(Debug, Clone, Copy, PartialEq, Eq, Structural)]
pub enum Phase {
    Idle,
    Running,
    Finished,
}

/// What the scheduler does on an event in a phase.
pub open spec fn scheduler_action(phase: Phase, event: SchedulerEvent) -> SchedulerAction {
    match phase {
        Phase::Running => match event {
            SchedulerEvent::ShutdownSignal => SchedulerAction::Finish,
            SchedulerEvent::TaskExited(kind) => SchedulerAction::FinishAfterLoss(kind),
        },
        _ => SchedulerAction::Ignore,
    }
}

/// The phase after an event: whatever comes first ends a running scheduler.
pub open spec fn scheduler_phase(phase: Phase, event: SchedulerEvent) -> Phase {
    match phase {
        Phase::Running => Phase::Finished,
        other => other,
    }
}

/// Starts the periodic tasks and decides when their joint run is over.
#[derive(Debug)]
pub struct EventManager {
    phase: Phase,
}

impl EventManager {
    pub closed spec fn phase_of(&self) -> Phase {
        self.phase
    }

    /// A scheduler that has started nothing yet.
    pub fn new() -> (manager: Self)
        ensures
            manager.phase_of() == Phase::Idle,
    {
        EventManager { phase: Phase::Idle }
    }

    pub fn phase(&self) -> (phase: Phase)
        ensures
            phase == self.phase_of(),
    {
        self.phase
    }

    /// Hands out the tasks to start: all of them, once. A scheduler that has
    /// been started before hands out none.
    pub fn start_event_loops(&mut self) -> (tasks: Vec<RefreshTask>)
        ensures
            old(self).phase_of() is Idle ==> {
                &&& final(self).phase_of() is Running
                &&& tasks.len() == task_set().len()
                &&& forall|i: int|
                    0 <= i < tasks.len() ==> (#[trigger] tasks[i])@ == TaskModel::fresh(
                        task_set()[i],
                    )
            },
            !(old(self).phase_of() is Idle) ==> {
                &&& final(self).phase_of() == old(self).phase_of()
                &&& tasks.len() == 0
            },
    {
        let mut tasks: Vec<RefreshTask> = Vec::new();
        match self.phase {
            Phase::Idle => {
                self.phase = Phase::Running;
                tasks.push(RefreshTask::new(TaskKind::StateSync));
                tasks.push(RefreshTask::new(TaskKind::Clock));
                tasks.push(RefreshTask::new(TaskKind::Battery));
                tasks.push(RefreshTask::new(TaskKind::Keyboard));
                tasks.push(RefreshTask::new(TaskKind::Space));
                tasks.push(RefreshTask::new(TaskKind::App));
                tasks.push(RefreshTask::new(TaskKind::Window));
            },
            _ => {},
        }
        tasks
    }

    /// What the scheduler does with the first thing to happen: the
    /// cancellation ends it, and so does the loss of a task, which is
    /// reported. Once it has ended, further events are ignored, so a second
    /// delivery of the cancellation does no harm.
    pub fn on_event(&mut self, event: SchedulerEvent) -> (action: SchedulerAction)
        ensures
            action == scheduler_action(old(self).phase_of(), event),
            final(self).phase_of() == scheduler_phase(old(self).phase_of(), event),
    {
        match self.phase {
            Phase::Running => {
                self.phase = Phase::Finished;
                match event {
                    SchedulerEvent::ShutdownSignal => SchedulerAction::Finish,
                    SchedulerEvent::TaskExited(kind) => SchedulerAction::FinishAfterLoss(kind),
                }
            },
            _ => SchedulerAction::Ignore,
        }
    }
}

/// The dispatches of one render pass: every command for every render target,
/// target by target in the order of their registration.
pub open spec fn pass_dispatches(bar_names: Seq<Seq<char>>, commands: Seq<Seq<char>>) -> Seq<
    (Seq<char>, Seq<char>),
> {
    Seq::new(
        bar_names.len() * commands.len(),
        |i: int| (bar_names[i / commands.len() as int], commands[i % commands.len() as int]),
    )
}

/// The names of the bars registered under the given ids, in order.
pub open spec fn target_names(bars: Map<Seq<char>, SketchyBar>, ids: Seq<Seq<char>>) -> Seq<
    Seq<char>,
> {
    Seq::new(ids.len(), |i: int| bars[ids[i]]@)
}

/// Lays out one render pass: the commands of the pass go to every registered
/// render target. Each dispatch is due whatever becomes of the others.
pub fn render_pass(bars: &NameMap<SketchyBar>, commands: &Vec<String>) -> (dispatches: Vec<Dispatch>)
    requires
        bars.wf(),
    ensures
        dispatch_records(dispatches@) == pass_dispatches(
            target_names(bars@, bars.names()),
            texts(commands@),
        ),
{
    let ghost names = target_names(bars@, bars.names());
    let ghost lines = texts(commands@);
    let mut dispatches: Vec<Dispatch> = Vec::new();
    let mut b: usize = 0;
    while b < bars.len()
        invariant
            bars.wf(),
            names == target_names(bars@, bars.names()),
            lines == texts(commands@),
            0 <= b <= bars.names().len(),
            dispatches.len() == b * commands.len(),
            forall|i: int|
                0 <= i < dispatches.len() ==> (#[trigger] dispatches[i])@ == (
                    names[i / commands.len() as int],
                    lines[i % commands.len() as int],
                ),
        decreases bars.names().len() - b,
    {
        let bar = bars.value_at(b);
        let mut c: usize = 0;
        while c < commands.len()
            invariant
                bars.wf(),
                names == target_names(bars@, bars.names()),
                lines == texts(commands@),
                0 <= b < bars.names().len(),
                bar@ == names[b as int],
                0 <= c <= commands.len(),
                dispatches.len() == b * commands.len() + c,
                forall|i: int|
                    0 <= i < dispatches.len() ==> (#[trigger] dispatches[i])@ == (
                        names[i / commands.len() as int],
                        lines[i % commands.len() as int],
                    ),
            decreases commands.len() - c,
        {
            let ghost at = dispatches.len() as int;
            proof {
                lemma_cell(b as int, c as int, commands.len() as int);
            }
            dispatches.push(bar.message(commands[c].as_str()));
            c += 1;
        }
        proof {
            assert(b * commands.len() + commands.len() == (b + 1) * commands.len())
                by (nonlinear_arith);
        }
        b += 1;
    }
    proof {
        assert(dispatch_records(dispatches@) =~= pass_dispatches(
            names,
            lines,
        ));
    }
    dispatches
}

/// The place `row * width + column` lies in row `row` and column `column`.
proof fn lemma_cell(row: int, column: int, width: int)
    requires
        0 <= row,
        0 <= column < width,
    ensures
        (row * width + column) / width == row,
        (row * width + column) % width == column,
{
    vstd::arithmetic::div_mod::lemma_fundamental_div_mod_converse(
        row * width + column,
        width,
        row,
        column,
    );
}

/// Once a task has seen the cancellation it never runs its unit again,
/// whatever it is handed afterwards.
pub proof fn law_shutdown_is_final(task: TaskModel, events: Seq<WaitEvent>, event: WaitEvent, succeeds: spec_fn(int) -> bool)
    requires
        task.stopped || exists|i: int| 0 <= i < events.len() && events[i] is Shutdown,
    ensures
        task.after(events, succeeds).stopped,
        task.after(events, succeeds).action(event) is Exit,
    decreases events.len(),
{
    if events.len() > 0 {
        if events.last() is Shutdown {
        } else {
            if !task.stopped {
                let i = choose|i: int| 0 <= i < events.len() && events[i] is Shutdown;
                assert(events.drop_last()[i] is Shutdown);
            }
            law_shutdown_is_final(task, events.drop_last(), event, succeeds);
        }
    }
}

/// A task runs its unit exactly once for every tick that comes before the
/// first cancellation, and a failed unit stops nothing.
pub proof fn law_one_run_per_tick(kind: TaskKind, events: Seq<WaitEvent>, succeeds: spec_fn(int) -> bool)
    ensures
        TaskModel::fresh(kind).after(events, succeeds).runs == ticks_before_shutdown(events),
        TaskModel::fresh(kind).after(events, succeeds).stopped == exists|i: int|
            0 <= i < events.len() && events[i] is Shutdown,
    decreases events.len(),
{
    let task = TaskModel::fresh(kind);
    if events.len() > 0 {
        let front = events.drop_last();
        law_one_run_per_tick(kind, front, succeeds);
        lemma_ticks_step(front, events.last());
        assert(front.push(events.last()) =~= events);
        if exists|i: int| 0 <= i < front.len() && front[i] is Shutdown {
            let i = choose|i: int| 0 <= i < front.len() && front[i] is Shutdown;
            assert(events[i] is Shutdown);
        }
        if exists|i: int| 0 <= i < events.len() && events[i] is Shutdown {
            let i = choose|i: int| 0 <= i < events.len() && events[i] is Shutdown;
            if i < front.len() {
                assert(front[i] is Shutdown);
            }
        }
    }
}

/// One more event adds a tick to the count exactly when it is a tick and no
/// cancellation came before it.
proof fn lemma_ticks_step(events: Seq<WaitEvent>, event: WaitEvent)
    ensures
        ticks_before_shutdown(events.push(event)) == ticks_before_shutdown(events) + if event
            is Tick && !(exists|i: int| 0 <= i < events.len() && events[i] is Shutdown) {
            1nat
        } else {
            0nat
        },
    decreases events.len(),
{
    if events.len() == 0 {
        assert(events.push(event).drop_first() =~= events);
    } else if events.first() is Shutdown {
        assert(events[0] is Shutdown);
    } else {
        let rest = events.drop_first();
        lemma_ticks_step(rest, event);
        assert(events.push(event).drop_first() =~= rest.push(event));
        if exists|i: int| 0 <= i < rest.len() && rest[i] is Shutdown {
            let i = choose|i: int| 0 <= i < rest.len() && rest[i] is Shutdown;
            assert(events[i + 1] is Shutdown);
        }
        if exists|i: int| 0 <= i < events.len() && events[i] is Shutdown {
            let i = choose|i: int| 0 <= i < events.len() && events[i] is Shutdown;
            assert(rest[i - 1] is Shutdown);
        }
    }
}

/// The cancellation ends a running scheduler, and so does the end of any
/// task; a scheduler that has ended stays so and ignores what comes later.
pub proof fn law_scheduler_returns(event: SchedulerEvent, later: SchedulerEvent)
    ensures
        scheduler_action(Phase::Running, SchedulerEvent::ShutdownSignal) == SchedulerAction::Finish,
        !(scheduler_action(Phase::Running, event) is Ignore),
        scheduler_phase(Phase::Running, event) is Finished,
        scheduler_action(scheduler_phase(Phase::Running, event), later) is Ignore,
        scheduler_phase(scheduler_phase(Phase::Running, event), later) is Finished,
{
}

/// No task waits longer than the longest interval for its next wait point.
pub proof fn law_interval_bound(kind: TaskKind)
    ensures
        1 <= kind.interval() <= MAX_INTERVAL_SECS,
{
}

} // verus!
