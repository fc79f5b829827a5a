//! The coordinator and the worker of a scan, taken together.
//!
//! The coordinator alone is described in [`crate::model`]. Here the shared
//! flag, the worker and the channel stand beside it, as mathematical values,
//! and the steps of both sides are put in one system: the coordinator
//! triggers and polls, the worker lowers the flag and then sends. A look at
//! the flag may find it held elsewhere at any time.
//!
//! The lemmas show that the two sides agree however their steps fall:
//! one worker at most is under way, an idle coordinator has no worker, and a
//! scan that has ended is taken in by the next poll that reads the flag.
//!
//! This is a model. It says how the flag and the channel behave as the
//! library uses them; the executable code is proved for whatever they do.
//! The model leaves out a ticket that is dropped unused and an outcome that
//! is handed to the coordinator by hand.

use crate::model::{FlagProbe, NetworkView};
use crate::scan::ScanOutcomeView;
use vstd::prelude::*;

verus! {

/// How far the worker of a scan has come.
pub enum WorkerView {
    /// No scan is under way on the worker's side: none was started, or the
    /// last one has sent its outcome.
    Absent,
    /// A ticket was handed out and the flag is still raised.
    Running,
    /// The worker has lowered the flag and has not sent yet.
    Lowered,
}

/// The coordinator with what it shares with the worker.
pub struct SystemView {
    pub coordinator: NetworkView,
    /// Whether the shared flag is raised.
    pub raised: bool,
    pub worker: WorkerView,
    /// The outcome that was sent and not yet taken, if any.
    pub channel: Option<ScanOutcomeView>,
}

/// A step of one of the two sides.
pub enum Step {
    /// The coordinator is asked for a scan.
    Trigger { contended: bool },
    /// The coordinator polls.
    Poll { contended: bool },
    /// The worker lowers the flag.
    Lower,
    /// The worker sends its outcome.
    Send { outcome: ScanOutcomeView },
}

impl SystemView {
    /// The system around a new coordinator.
    pub open spec fn initial() -> SystemView {
        SystemView {
            coordinator: NetworkView::initial(),
            raised: false,
            worker: WorkerView::Absent,
            channel: None,
        }
    }

    /// What a look at the flag tells.
    pub open spec fn probe(self, contended: bool) -> FlagProbe {
        if contended {
            FlagProbe::Contended
        } else if self.raised {
            FlagProbe::Raised
        } else {
            FlagProbe::Clear
        }
    }

    /// Whether the step can be taken: the worker lowers the flag once after
    /// its ticket was handed out, and sends once after that. The coordinator
    /// can always be triggered and polled.
    pub open spec fn enabled(self, step: Step) -> bool {
        match step {
            Step::Trigger { .. } => true,
            Step::Poll { .. } => true,
            Step::Lower => self.worker is Running,
            Step::Send { .. } => self.worker is Lowered,
        }
    }

    /// The system after the step.
    pub open spec fn after(self, step: Step) -> SystemView {
        match step {
            Step::Trigger { contended } => {
                let probe = self.probe(contended);
                if self.coordinator.may_start(probe) {
                    SystemView {
                        coordinator: self.coordinator.triggered(probe),
                        raised: true,
                        worker: WorkerView::Running,
                        channel: None,
                    }
                } else {
                    self
                }
            },
            Step::Poll { contended } => {
                let probe = self.probe(contended);
                if self.coordinator.awaits(probe) && self.channel is Some {
                    SystemView {
                        coordinator: self.coordinator.polled(probe, self.channel),
                        channel: None,
                        ..self
                    }
                } else {
                    self
                }
            },
            Step::Lower => SystemView { raised: false, worker: WorkerView::Lowered, ..self },
            Step::Send { outcome } => SystemView {
                worker: WorkerView::Absent,
                channel: Some(outcome),
                ..self
            },
        }
    }

    /// Whether the two sides agree.
    ///
    /// The flag is raised just as long as the worker runs and has not lowered
    /// it. While a worker is under way the coordinator is scanning and the
    /// channel is empty. Without a worker, the coordinator is scanning just
    /// as long as an outcome waits in the channel.
    pub open spec fn consistent(self) -> bool {
        &&& self.raised == (self.worker is Running)
        &&& !(self.worker is Absent) ==> self.coordinator.scanning && self.channel is None
        &&& self.worker is Absent ==> self.coordinator.scanning == (self.channel is Some)
    }

    /// The system after the steps, taken in their order from the initial
    /// system. A step that cannot be taken is passed over.
    pub open spec fn run(steps: Seq<Step>) -> SystemView
        decreases steps.len(),
    {
        if steps.len() == 0 {
            Self::initial()
        } else {
            let before = Self::run(steps.drop_last());
            if before.enabled(steps.last()) {
                before.after(steps.last())
            } else {
                before
            }
        }
    }
}

/// Every step that can be taken leaves the two sides in agreement.
pub proof fn lemma_step_keeps_consistent(system: SystemView, step: Step)
    requires
        system.consistent(),
        system.enabled(step),
    ensures
        system.after(step).consistent(),
{
}

/// However the steps of the two sides fall, the two sides agree.
pub proof fn lemma_run_consistent(steps: Seq<Step>)
    ensures
        SystemView::run(steps).consistent(),
    decreases steps.len(),
{
    if steps.len() > 0 {
        lemma_run_consistent(steps.drop_last());
        let before = SystemView::run(steps.drop_last());
        if before.enabled(steps.last()) {
            lemma_step_keeps_consistent(before, steps.last());
        }
    }
}

/// One worker at most is under way: while there is one, a trigger starts
/// none and changes nothing, whether or not it can read the flag; and a
/// trigger that starts one finds none.
pub proof fn lemma_one_worker_at_a_time(system: SystemView, contended: bool)
    requires
        system.consistent(),
    ensures
        !(system.worker is Absent) ==> system.after(Step::Trigger { contended }) == system,
        system.after(Step::Trigger { contended }) != system ==> system.worker is Absent
            && system.channel is None && system.after(Step::Trigger { contended }).worker is Running,
{
}

/// An idle coordinator has no worker, finds the flag down and the channel
/// empty, and starts a scan whenever it is triggered and the flag is not
/// held elsewhere.
pub proof fn lemma_idle_trigger_starts(system: SystemView)
    requires
        system.consistent(),
        !system.coordinator.scanning,
    ensures
        system.worker is Absent,
        !system.raised,
        system.channel is None,
        system.after(Step::Trigger { contended: false }).coordinator.scanning,
        system.after(Step::Trigger { contended: false }).worker is Running,
{
}

/// A scan ends once for the coordinator: a poll takes an outcome only while
/// the coordinator is scanning, the outcome is the one that the worker of
/// this scan sent, and afterwards the coordinator is idle with no worker and
/// nothing left in the channel.
pub proof fn lemma_poll_takes_what_was_sent(system: SystemView, contended: bool)
    requires
        system.consistent(),
    ensures
        system.after(Step::Poll { contended }) != system ==> {
            &&& system.coordinator.scanning
            &&& system.worker is Absent
            &&& system.channel is Some
            &&& system.after(Step::Poll { contended }).coordinator
                == system.coordinator.absorbed(system.channel->0)
            &&& !system.after(Step::Poll { contended }).coordinator.scanning
            &&& system.after(Step::Poll { contended }).channel is None
        },
{
}

/// A scan that has ended is taken in by the next poll that reads the flag:
/// once the worker has sent, the flag is down, and a poll that does not find
/// it held elsewhere leaves the coordinator idle.
pub proof fn lemma_ended_scan_is_taken(system: SystemView)
    requires
        system.consistent(),
        system.coordinator.scanning,
        system.worker is Absent,
    ensures
        !system.raised,
        system.channel is Some,
        !system.after(Step::Poll { contended: false }).coordinator.scanning,
{
}

/// A scan that has not ended holds the coordinator in the scanning state: no
/// poll changes anything before the worker has sent.
pub proof fn lemma_poll_waits_for_the_worker(system: SystemView, contended: bool)
    requires
        system.consistent(),
        !(system.worker is Absent),
    ensures
        system.after(Step::Poll { contended }) == system,
{
}

} // verus!
