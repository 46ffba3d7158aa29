//! The pump and drain protocol.
//!
//! The engine is driven one synchronous cycle per tick: submit commands,
//! pump, read the ready events. This module holds the decisions of that
//! loop; the terminal layer performs the blocking read and the engine
//! calls, and hands every outcome back here as plain values.
//!
//! The session has three phases. In `Running`, each keystroke yields a
//! [`Tick`]: the commands to submit (at most one), and whether to pump the
//! engine with an empty command list so background work advances even
//! without input. When the UI asks to quit, the driver emits the quit
//! command and enters `Draining`: the loop keeps pumping with no new
//! commands, and the phase moves to `Finished` exactly when a batch of
//! engine events contains the shutdown confirmation -- never before, no
//! matter how many empty cycles pass. Only in `Finished` may the engine
//! handle be deinitialized, exactly once, before the terminal is restored.

use vstd::prelude::*;

use crate::keys::{KeyCode, KeyEvent};
use crate::ui::{App, AppView, BarView, Command, Directive, step_ok};

verus! {

/// One event the engine reported, reduced to what the shell inspects. All
/// unrecognized variants arrive as `Other` and are ignorable by design,
/// never an error.
#[derive(Clone, Copy, Debug, PartialEq, Eq, Structural)]
pub enum EngineEvent {
    /// The page finished loading.
    LoadComplete,
    /// The engine confirms it has fully shut down.
    Shutdown,
    /// Anything the shell does not act on.
    Other,
}

/// Where the session stands.
#[derive(Clone, Copy, Debug, PartialEq, Eq, Structural)]
pub enum Phase {
    /// The main phase: redraw, read a key, maybe submit, pump, drain.
    Running,
    /// Quit was submitted; pumping until the engine confirms shutdown.
    Draining,
    /// Shutdown confirmed; the engine may be deinitialized.
    Finished,
}

/// What the loop must do with the engine after one keystroke.
pub struct Tick {
    /// What the UI decided for this keystroke.
    pub directive: Directive,
    /// The commands to submit this tick: empty or a single command.
    pub commands: Vec<Command>,
    /// Whether to pump the engine with an empty command list afterwards
    /// (submitting a command already pumps it).
    pub pump_idle: bool,
}

/// Whether a batch of engine events carries the shutdown confirmation.
pub open spec fn contains_shutdown(events: Seq<EngineEvent>) -> bool {
    exists|i: int| 0 <= i < events.len() && events[i] is Shutdown
}

/// Whether a batch of engine events reports a completed page load.
pub open spec fn contains_load_complete(events: Seq<EngineEvent>) -> bool {
    exists|i: int| 0 <= i < events.len() && events[i] is LoadComplete
}

/// How one batch of engine events moves the phase: only the shutdown
/// confirmation ends the drain, and nothing leaves `Finished`.
pub open spec fn phase_step(p: Phase, events: Seq<EngineEvent>) -> Phase {
    match p {
        Phase::Running => Phase::Running,
        Phase::Draining => if contains_shutdown(events) {
            Phase::Finished
        } else {
            Phase::Draining
        },
        Phase::Finished => Phase::Finished,
    }
}

/// How one batch of engine events changes the bar: a completed load takes
/// the loading notice down; everything else is ignored.
pub open spec fn bar_absorb(b: BarView, events: Seq<EngineEvent>) -> BarView {
    if b is UrlLoading && contains_load_complete(events) {
        BarView::Idle
    } else {
        b
    }
}

/// Scans a batch of engine events for the shutdown confirmation.
pub fn shutdown_observed(events: &Vec<EngineEvent>) -> (r: bool)
    ensures
        r == contains_shutdown(events@),
{
    let mut j: usize = 0;
    while j < events.len()
        invariant
            0 <= j <= events@.len(),
            forall|i: int| 0 <= i < j ==> !((#[trigger] events@[i]) is Shutdown),
        decreases events@.len() - j,
    {
        if matches!(events[j], EngineEvent::Shutdown) {
            return true;
        }
        j = j + 1;
    }
    false
}

/// Scans a batch of engine events for a completed page load.
pub fn load_complete_observed(events: &Vec<EngineEvent>) -> (r: bool)
    ensures
        r == contains_load_complete(events@),
{
    let mut j: usize = 0;
    while j < events.len()
        invariant
            0 <= j <= events@.len(),
            forall|i: int| 0 <= i < j ==> !((#[trigger] events@[i]) is LoadComplete),
        decreases events@.len() - j,
    {
        if matches!(events[j], EngineEvent::LoadComplete) {
            return true;
        }
        j = j + 1;
    }
    false
}

/// The session driver: the UI state machine plus the phase of the pump and
/// drain protocol.
pub struct Driver {
    pub app: App,
    pub phase: Phase,
}

impl Driver {
    pub open spec fn wf(self) -> bool {
        self.app.wf()
    }

    /// A fresh session in the main phase.
    pub fn new() -> (d: Driver)
        ensures
            d.phase is Running,
            d.app@.ui is Base,
            d.app@.bar is Idle,
            d.wf(),
    {
        Driver { app: App::new(), phase: Phase::Running }
    }

    /// Feeds one keystroke through the UI state machine and decides the
    /// tick: a quit directive submits exactly one quit command and enters
    /// the drain; a submitted command goes out alone; otherwise nothing is
    /// submitted and the engine is pumped idle so background work advances.
    /// The tick carries the directive the UI emitted.
    pub fn on_terminal_key(&mut self, k: &KeyEvent) -> (t: Tick)
        requires
            old(self).wf(),
            old(self).phase is Running,
        ensures
            final(self).wf(),
            step_ok(old(self).app@, *k, final(self).app@, t.directive),
            tick_for(t.directive, final(self).phase, t.commands@, t.pump_idle),
    {
        let d = self.app.handle_key(k);
        match d {
            Directive::Continue => Tick {
                directive: Directive::Continue,
                commands: Vec::new(),
                pump_idle: true,
            },
            Directive::Submit(c) => {
                let mut commands: Vec<Command> = Vec::new();
                let kept = match &c {
                    Command::Open(u) => Command::Open(u.clone()),
                    Command::Quit => Command::Quit,
                };
                commands.push(kept);
                Tick { directive: Directive::Submit(c), commands, pump_idle: false }
            },
            Directive::Quit => {
                self.phase = Phase::Draining;
                let mut commands: Vec<Command> = Vec::new();
                commands.push(Command::Quit);
                Tick { directive: Directive::Quit, commands, pump_idle: false }
            },
        }
    }

    /// Absorbs one batch of engine events. In the main phase only the bar
    /// can change, and only a completed load changes it; in the drain the
    /// phase advances exactly when the batch confirms shutdown; all other
    /// events are discarded without error.
    pub fn on_engine_events(&mut self, events: &Vec<EngineEvent>)
        requires
            old(self).wf(),
        ensures
            final(self).wf(),
            final(self).phase == phase_step(old(self).phase, events@),
            final(self).app@.ui == old(self).app@.ui,
            final(self).app@.bar == (if old(self).phase is Running {
                bar_absorb(old(self).app@.bar, events@)
            } else {
                old(self).app@.bar
            }),
    {
        match self.phase {
            Phase::Running => {
                let loading = matches!(self.app.bar_state, crate::ui::BarState::UrlLoading);
                if loading && load_complete_observed(events) {
                    self.app.bar_state = crate::ui::BarState::Idle;
                }
            },
            Phase::Draining => {
                if shutdown_observed(events) {
                    self.phase = Phase::Finished;
                }
            },
            Phase::Finished => {},
        }
    }
}

/// Two commands carrying the same request.
pub open spec fn same_command(a: Command, b: Command) -> bool {
    match (a, b) {
        (Command::Open(x), Command::Open(y)) => x@ == y@,
        (Command::Quit, Command::Quit) => true,
        _ => false,
    }
}

/// What the tick must hold for a given directive: quitting submits exactly
/// the quit command and moves to the drain; a submission carries exactly
/// its command; otherwise nothing is submitted and the idle pump runs.
pub open spec fn tick_for(d: Directive, phase: Phase, commands: Seq<Command>, pump_idle: bool) -> bool {
    match d {
        Directive::Continue => phase is Running && commands.len() == 0 && pump_idle,
        Directive::Submit(c) => phase is Running && commands.len() == 1 && same_command(
            commands[0],
            c,
        ) && !pump_idle,
        Directive::Quit => phase is Draining && commands.len() == 1 && commands[0] is Quit
            && !pump_idle,
    }
}

/// The quit handshake: a pressed `q` in base mode leaves the UI untouched,
/// submits exactly one quit command, enters the drain, and skips the idle
/// pump -- whatever else the keystroke carries.
pub proof fn lemma_quit_handshake(
    pre: AppView,
    k: KeyEvent,
    post: AppView,
    d: Directive,
    phase: Phase,
    commands: Seq<Command>,
    pump_idle: bool,
)
    requires
        pre.ui is Base,
        k.kind is Press,
        k.code == KeyCode::Char('q'),
        step_ok(pre, k, post, d),
        tick_for(d, phase, commands, pump_idle),
    ensures
        post == pre,
        commands.len() == 1 && commands[0] is Quit,
        phase is Draining,
        !pump_idle,
{
}

/// The drain never ends before the engine confirms shutdown: over any run
/// of event batches none of which carries the confirmation, a draining
/// session is still draining; and the first batch that carries it finishes
/// the session (bounded liveness: one batch suffices once the engine
/// emits it).
pub proof fn lemma_drain_waits_for_shutdown(batches: Seq<Seq<EngineEvent>>)
    ensures
        (forall|i: int| 0 <= i < batches.len() ==> !contains_shutdown(#[trigger] batches[i]))
            ==> drain_after(batches) is Draining,
        (exists|i: int| 0 <= i < batches.len() && contains_shutdown(#[trigger] batches[i]))
            ==> drain_after(batches) is Finished,
    decreases batches.len(),
{
    if batches.len() > 0 {
        lemma_drain_waits_for_shutdown(batches.drop_last());
        lemma_drain_after_settled(batches.drop_last());
        if forall|i: int| 0 <= i < batches.len() ==> !contains_shutdown(#[trigger] batches[i]) {
            assert forall|i: int|
                0 <= i < batches.drop_last().len() implies !contains_shutdown(
                #[trigger] batches.drop_last()[i],
            ) by {
                assert(batches.drop_last()[i] == batches[i]);
            }
            assert(!contains_shutdown(batches.last()));
        }
        assert forall|i: int|
            0 <= i < batches.len() && contains_shutdown(#[trigger] batches[i]) implies drain_after(
            batches,
        ) is Finished by {
            if i < batches.len() - 1 {
                assert(batches.drop_last()[i] == batches[i]);
                assert(contains_shutdown(batches.drop_last()[i]));
            }
        }
    }
}

/// A draining session is always still draining or already finished.
proof fn lemma_drain_after_settled(batches: Seq<Seq<EngineEvent>>)
    ensures
        drain_after(batches) is Draining || drain_after(batches) is Finished,
    decreases batches.len(),
{
    if batches.len() > 0 {
        lemma_drain_after_settled(batches.drop_last());
    }
}

/// The phase a draining session reaches after absorbing the given batches
/// in order.
pub open spec fn drain_after(batches: Seq<Seq<EngineEvent>>) -> Phase
    decreases batches.len(),
{
    if batches.len() == 0 {
        Phase::Draining
    } else {
        phase_step(drain_after(batches.drop_last()), batches.last())
    }
}

} // verus!
