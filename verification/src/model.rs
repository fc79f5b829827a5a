//! The coordinator as a state machine on mathematical values.
//!
//! A [`NetworkView`] is the value of a [`crate::network::Network`]. The
//! functions here say what each step of the coordinator does to it, given
//! what the step read of the shared flag and found in the channel; the
//! contracts of the coordinator speak of them. The lemmas state what the
//! steps have in common.

use crate::listing::DeviceView;
use crate::record::WifiView;
use crate::scan::{well_numbered, ScanOutcomeView};
use vstd::prelude::*;

verus! {

/// What a look at the shared flag tells, taken without waiting.
#[derive(Clone, Copy, Debug, PartialEq, Eq)]
pub enum FlagProbe {
    /// The flag is held elsewhere just now and could not be read.
    Contended,
    /// The flag is raised: a scan runs.
    Raised,
    /// The flag is down.
    Clear,
}

/// How the last scan ended.
#[derive(Clone, Copy, Debug, PartialEq, Eq)]
pub enum ScanStatus {
    /// No scan has ended yet.
    Never,
    /// The listing was read, but for `skipped` of its lines.
    Completed { skipped: usize },
    /// No listing could be had.
    Failed,
}

/// A command that applying the page issues.
#[derive(Clone, Debug, PartialEq, Eq)]
pub enum Action {
    /// Connect the interface.
    Connect { device: String },
    /// Disconnect the interface.
    Disconnect { device: String },
    /// Join the wireless network that is stored under this name.
    Join { ssid: String },
}

/// The mathematical value of an [`Action`].
pub enum ActionView {
    Connect { device: Seq<char> },
    Disconnect { device: Seq<char> },
    Join { ssid: Seq<char> },
}

impl View for Action {
    type V = ActionView;

    open spec fn view(&self) -> ActionView {
        match self {
            Action::Connect { device } => ActionView::Connect { device: device@ },
            Action::Disconnect { device } => ActionView::Disconnect { device: device@ },
            Action::Join { ssid } => ActionView::Join { ssid: ssid@ },
        }
    }
}

/// The views of a sequence of actions.
pub open spec fn action_views(actions: Seq<Action>) -> Seq<ActionView> {
    Seq::new(actions.len(), |i: int| actions[i]@)
}

/// The mathematical value of a coordinator.
pub struct NetworkView {
    /// The interfaces, in the order in which they were listed.
    pub devices: Seq<DeviceView>,
    /// The networks that the last completed scan found.
    pub results: Seq<WifiView>,
    /// The names of the known networks.
    pub known: Set<Seq<char>>,
    /// The identifier that the user chose, if any.
    pub selection: Option<usize>,
    /// Whether a scan is under way.
    pub scanning: bool,
    /// How the last scan ended.
    pub last_scan: ScanStatus,
    /// Whether the page has been set up.
    pub init: bool,
}

impl NetworkView {
    /// The coordinator before anything was done to it.
    pub open spec fn initial() -> NetworkView {
        NetworkView {
            devices: Seq::empty(),
            results: Seq::empty(),
            known: Set::empty(),
            selection: None,
            scanning: false,
            last_scan: ScanStatus::Never,
            init: false,
        }
    }

    /// Whether a trigger that read `probe` of the flag starts a scan: only
    /// from idle, and only where the flag was read and found down.
    pub open spec fn may_start(self, probe: FlagProbe) -> bool {
        !self.scanning && probe == FlagProbe::Clear
    }

    /// The coordinator after a trigger that read `probe` of the flag.
    pub open spec fn triggered(self, probe: FlagProbe) -> NetworkView {
        if self.may_start(probe) {
            NetworkView { scanning: true, ..self }
        } else {
            self
        }
    }

    /// Whether a poll that read `probe` of the flag looks into the channel:
    /// only while scanning, and only where the flag was read and found down.
    pub open spec fn awaits(self, probe: FlagProbe) -> bool {
        self.scanning && probe == FlagProbe::Clear
    }

    /// The coordinator after the end of a scan has reached it. A completed
    /// scan puts its networks in the place of the earlier ones; a failed one
    /// leaves them. Either way the coordinator is idle. While idle it takes
    /// no outcome.
    pub open spec fn absorbed(self, outcome: ScanOutcomeView) -> NetworkView {
        if !self.scanning {
            self
        } else {
            match outcome {
                ScanOutcomeView::Completed { networks, skipped } => NetworkView {
                    results: networks,
                    scanning: false,
                    last_scan: ScanStatus::Completed { skipped },
                    ..self
                },
                ScanOutcomeView::Failed => NetworkView {
                    scanning: false,
                    last_scan: ScanStatus::Failed,
                    ..self
                },
            }
        }
    }

    /// The coordinator after a poll that read `probe` of the flag and, where
    /// it looked into the channel, found `pending` there.
    pub open spec fn polled(self, probe: FlagProbe, pending: Option<ScanOutcomeView>) -> NetworkView {
        match pending {
            Some(outcome) => if self.awaits(probe) {
                self.absorbed(outcome)
            } else {
                self
            },
            None => self,
        }
    }

    /// The network that the selection stands for: the one among the current
    /// results that has the chosen identifier, which is its place, if there
    /// is one.
    pub open spec fn selected(self) -> Option<WifiView> {
        match self.selection {
            Some(id) => if id < self.results.len() {
                Some(self.results[id as int])
            } else {
                None
            },
            None => None,
        }
    }

    /// The command for one interface.
    pub open spec fn device_action(device: DeviceView) -> ActionView {
        if device.status {
            ActionView::Connect { device: device.device }
        } else {
            ActionView::Disconnect { device: device.device }
        }
    }

    /// The commands for the interfaces, in their order.
    pub open spec fn device_actions(self) -> Seq<ActionView> {
        Seq::new(self.devices.len(), |i: int| Self::device_action(self.devices[i]))
    }

    /// The command for the chosen network, if the selection stands for one.
    pub open spec fn join_actions(self) -> Seq<ActionView> {
        match self.selected() {
            Some(wifi) => seq![ActionView::Join { ssid: wifi.ssid }],
            None => Seq::empty(),
        }
    }

    /// The commands that applying the page issues: one for each interface,
    /// then the one for the chosen network.
    pub open spec fn plan(self) -> Seq<ActionView> {
        self.device_actions() + self.join_actions()
    }
}

/// While a scan is under way, a trigger starts nothing and changes nothing,
/// whatever it reads of the flag. So however often a scan is asked for, one
/// scan runs at a time.
pub proof fn lemma_trigger_while_scanning(state: NetworkView, probe: FlagProbe)
    requires
        state.scanning,
    ensures
        !state.may_start(probe),
        state.triggered(probe) == state,
{
}

/// A trigger that starts a scan leaves the coordinator scanning, and one that
/// starts none leaves it as it was.
pub proof fn lemma_trigger_starts_or_keeps(state: NetworkView, probe: FlagProbe)
    ensures
        state.may_start(probe) ==> state.triggered(probe).scanning,
        !state.may_start(probe) ==> state.triggered(probe) == state,
        state.triggered(probe).results == state.results,
{
}

/// A scan ends once: after the end of a scan was taken in, the coordinator is
/// idle, and a further outcome changes nothing.
pub proof fn lemma_one_outcome_per_scan(
    state: NetworkView,
    first: ScanOutcomeView,
    second: ScanOutcomeView,
)
    ensures
        !state.absorbed(first).scanning,
        state.absorbed(first).absorbed(second) == state.absorbed(first),
{
}

/// A poll leaves the results as they are or puts the networks of one
/// completed scan in their place: the results never hold networks of two
/// scans. It changes them only as it leaves the scanning state.
pub proof fn lemma_results_change_whole(
    state: NetworkView,
    probe: FlagProbe,
    pending: Option<ScanOutcomeView>,
)
    ensures
        state.polled(probe, pending).results == state.results || (pending matches Some(
            ScanOutcomeView::Completed { networks, .. },
        ) && state.polled(probe, pending).results == networks),
        state.polled(probe, pending).results != state.results ==> state.scanning && !state.polled(
            probe,
            pending,
        ).scanning,
{
}

/// While scanning, a poll that finds the flag down and the outcome of the
/// scan in the channel takes it in and leaves the coordinator idle; one that
/// finds the channel empty changes nothing, whatever it reads of the flag.
pub proof fn lemma_poll_takes_the_outcome(
    state: NetworkView,
    probe: FlagProbe,
    outcome: ScanOutcomeView,
)
    requires
        state.scanning,
    ensures
        state.polled(FlagProbe::Clear, Some(outcome)) == state.absorbed(outcome),
        !state.polled(FlagProbe::Clear, Some(outcome)).scanning,
        state.polled(probe, None) == state,
{
}

/// Where the flag is held elsewhere, a poll changes nothing, whatever the
/// channel holds, and so does a trigger: a coordinator that was scanning
/// still is.
pub proof fn lemma_contended_changes_nothing(state: NetworkView, pending: Option<ScanOutcomeView>)
    ensures
        state.polled(FlagProbe::Contended, pending) == state,
        state.triggered(FlagProbe::Contended) == state,
{
}

/// A selection that no current result answers to joins no network: the
/// commands are those for the interfaces alone.
pub proof fn lemma_stale_selection(state: NetworkView)
    requires
        state.selection matches Some(id) && id >= state.results.len(),
    ensures
        state.selected() is None,
        state.join_actions() == Seq::<ActionView>::empty(),
        state.plan() == state.device_actions(),
{
}

/// Among well numbered results, the selection stands for the one network
/// that has the chosen identifier, and for none where no network has it.
pub proof fn lemma_selected_by_id(state: NetworkView)
    requires
        well_numbered(state.results),
    ensures
        state.selected() matches Some(wifi) ==> state.selection == Some(wifi.id as usize),
        state.selected() is None ==> forall|i: int|
            0 <= i < state.results.len() ==> state.selection != Some(
                (#[trigger] state.results[i]).id as usize,
            ),
{
}

} // verus!
