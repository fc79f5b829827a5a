//! The coordinator of the network page.
//!
//! A [`Network`] holds what the page shows: the interfaces, the networks that
//! the last scan found, the names of the known networks and the network that
//! the user has chosen. It is either idle or scanning. [`Network::trigger_scan`]
//! takes it from idle to scanning and hands out a [`ScanTicket`]; the caller
//! runs the scan on a thread of its own and ends it through the ticket.
//! [`Network::poll`], called on every refresh, takes the coordinator back to
//! idle once the scan has ended, and puts the networks that it found in the
//! place of the earlier ones, all at once. Neither of the two ever waits.
//!
//! The worker and the coordinator share a flag, raised while a scan runs, and
//! a channel that is opened for the one scan and carries its one outcome. The
//! worker lowers the flag and then sends what it found. What the coordinator
//! reads of the two depends on the other thread, so the contracts of
//! `trigger_scan` and `poll` say what holds whatever was read, and
//! [`Network::may_start`], [`Network::poll_given`] and [`Network::absorb`] say
//! what is done for each thing that can be read.
//!
//! A ticket that is dropped without ending its scan leaves the flag raised
//! and the coordinator scanning.

use crate::listing::{
    device_views, listed_devices, listed_names, parse_devices, parse_known, string_views, Device,
    DeviceView,
};
use crate::model::{action_views, Action, FlagProbe, NetworkView, ScanStatus};
use crate::record::Wifi;
use crate::scan::{
    parse_scan, scan_networks, scan_skipped, well_numbered, wifi_views, ScanOutcome,
    ScanOutcomeView, ScanReport,
};
use crate::sync::{
    hold, is_raised, new_flag, open_channel, send_outcome, set_raised, share_flag, take_outcome,
    try_hold,
};
use crate::text::lines_of;
use std::sync::mpsc::{Receiver, Sender};
use std::sync::{Arc, Mutex, MutexGuard};
use vstd::hash_set::StringHashSet;
use vstd::prelude::*;

verus! {

/// What an attempt to take hold of the flag tells of it: that it is held
/// elsewhere where the attempt gave no guard, and else what is read through
/// the guard, raised or down. Which of these two is read is left by the other
/// thread, so the contract says of a guard only that the flag was read.
fn probe_of(guard: &Option<MutexGuard<'_, bool>>) -> (probe: FlagProbe)
    ensures
        guard is None ==> probe == FlagProbe::Contended,
        guard is Some ==> probe == FlagProbe::Raised || probe == FlagProbe::Clear,
{
    match guard {
        Some(held) => if is_raised(held) {
            FlagProbe::Raised
        } else {
            FlagProbe::Clear
        },
        None => FlagProbe::Contended,
    }
}

/// How the end of a scan went.
#[derive(Clone, Copy, Debug, PartialEq, Eq)]
pub struct Delivery {
    /// The number of networks that the listing describes.
    pub found: usize,
    /// The number of lines of the listing that could not be read.
    pub skipped: usize,
    /// Whether the coordinator was there to take the networks.
    pub sent: bool,
}

/// The right to end the scan that [`Network::trigger_scan`] started. It is
/// used up by ending the scan, so a scan ends once.
pub struct ScanTicket {
    flag: Arc<Mutex<bool>>,
    sender: Sender<ScanOutcome>,
}

impl ScanTicket {
    /// Ends the scan with the listing that it produced: reads the listing,
    /// lowers the flag, then sends the networks to the coordinator. Tells how
    /// many networks and unread lines the listing held, and whether the
    /// networks were taken, which they are not once the coordinator is gone.
    pub fn complete(self, listing: &str) -> (delivery: Delivery)
        ensures
            delivery.found == scan_networks(lines_of(listing@)).len(),
            delivery.skipped == scan_skipped(lines_of(listing@)),
    {
        let report = parse_scan(listing);
        let found = report.networks().len();
        let skipped = report.skipped();
        let sent = self.deliver(ScanOutcome::Completed(report));
        Delivery { found, skipped, sent }
    }

    /// Ends a scan that produced no listing: lowers the flag, then tells the
    /// coordinator of the failure. Returns whether the word was taken.
    pub fn abandon(self) -> (sent: bool) {
        self.deliver(ScanOutcome::Failed)
    }

    /// Lowers the flag, lets go of it, then sends the outcome. Returns
    /// whether it was taken, which the receiving end decides.
    fn deliver(self, outcome: ScanOutcome) -> (sent: bool) {
        {
            let mut guard = hold(&self.flag);
            set_raised(&mut guard, false);
        }
        send_outcome(&self.sender, outcome)
    }
}

/// The state of the network page.
pub struct Network {
    devices: Vec<Device>,
    results: ScanReport,
    known: StringHashSet,
    selection: Option<usize>,
    flag: Arc<Mutex<bool>>,
    receiver: Option<Receiver<ScanOutcome>>,
    scanning: bool,
    last_scan: ScanStatus,
    init: bool,
}

impl View for Network {
    type V = NetworkView;

    closed spec fn view(&self) -> NetworkView {
        NetworkView {
            devices: device_views(self.devices@),
            results: self.results.found(),
            known: self.known@,
            selection: self.selection,
            scanning: self.scanning,
            last_scan: self.last_scan,
            init: self.init,
        }
    }
}

impl Default for Network {
    /// An idle coordinator with nothing in it.
    fn default() -> (network: Network)
        ensures
            network@ == NetworkView::initial(),
    {
        let network = Network {
            devices: Vec::new(),
            results: ScanReport::empty(),
            known: StringHashSet::new(),
            selection: None,
            flag: Arc::new(new_flag(false)),
            receiver: None,
            scanning: false,
            last_scan: ScanStatus::Never,
            init: false,
        };
        proof {
            assert(network@.devices =~= Seq::empty());
        }
        network
    }
}

impl Network {
    /// Sets the page up: reads the two listings and starts the first scan.
    /// The ticket is handed out as [`Network::trigger_scan`] hands it out.
    #[must_use]
    pub fn init(&mut self, device_listing: &str, known_listing: &str) -> (ticket: Option<
        ScanTicket,
    >)
        ensures
            exists|probe: FlagProbe|
                ticket is Some == old(self)@.may_start(probe) && final(self)@ == (NetworkView {
                    devices: old(self)@.devices + listed_devices(device_listing@),
                    known: old(self)@.known.union(listed_names(known_listing@).to_set()),
                    init: true,
                    ..old(self)@.triggered(probe)
                }),
            old(self)@.scanning ==> ticket is None,
            final(self)@.scanning == (old(self)@.scanning || ticket is Some),
    {
        self.get_devices(device_listing);
        let ghost listed = self@;
        let ticket = self.trigger_scan();
        let ghost probe = choose|probe: FlagProbe|
            ticket is Some == listed.may_start(probe) && self@ == listed.triggered(probe);
        self.get_known_wifi(known_listing);
        self.init = true;
        proof {
            assert(self@ == (NetworkView {
                devices: old(self)@.devices + listed_devices(device_listing@),
                known: old(self)@.known.union(listed_names(known_listing@).to_set()),
                init: true,
                ..old(self)@.triggered(probe)
            }));
        }
        ticket
    }

    /// Whether the page has been set up.
    pub fn is_init(&self) -> (init: bool)
        ensures
            init == self@.init,
    {
        self.init
    }

    /// The title of the page.
    pub fn name(&self) -> (name: &'static str)
        ensures
            name@ == "Network"@,
    {
        "Network"
    }

    /// Adds the interfaces that the listing names, each to be connected.
    pub fn get_devices(&mut self, listing: &str)
        ensures
            final(self)@ == (NetworkView {
                devices: old(self)@.devices + listed_devices(listing@),
                ..old(self)@
            }),
    {
        let mut found = parse_devices(listing);
        let ghost before = device_views(self.devices@);
        let ghost added = device_views(found@);
        self.devices.append(&mut found);
        proof {
            assert(device_views(self.devices@) =~= before + added);
        }
    }

    /// Adds the names that the listing of known networks holds.
    pub fn get_known_wifi(&mut self, listing: &str)
        ensures
            final(self)@ == (NetworkView {
                known: old(self)@.known.union(listed_names(listing@).to_set()),
                ..old(self)@
            }),
    {
        let names = parse_known(listing);
        let ghost all = listed_names(listing@);
        let ghost before = self.known@;
        let mut i: usize = 0;
        while i < names.len()
            invariant
                i <= names.len(),
                string_views(names@) == all,
                self.known@ == before.union(all.take(i as int).to_set()),
                self.devices == old(self).devices,
                self.results == old(self).results,
                self.selection == old(self).selection,
                self.scanning == old(self).scanning,
                self.last_scan == old(self).last_scan,
                self.init == old(self).init,
            decreases names.len() - i,
        {
            self.known.insert(names[i].clone());
            proof {
                assert(all.take(i + 1) =~= all.take(i as int).push(all[i as int]));
                all.take(i as int).lemma_push_to_set_commute(all[i as int]);
            }
            i += 1;
        }
        proof {
            assert(all.take(i as int) =~= all);
        }
    }

    /// Whether a trigger that reads `probe` of the flag starts a scan.
    pub fn may_start(&self, probe: FlagProbe) -> (start: bool)
        ensures
            start == self@.may_start(probe),
    {
        !self.scanning && matches!(probe, FlagProbe::Clear)
    }

    /// Starts a scan, unless one is under way. Never waits.
    ///
    /// While scanning, nothing is done and nothing is handed out. While idle,
    /// the shared flag is looked at: where it is down it is raised, the
    /// coordinator is scanning from then on, and the ticket for the scan is
    /// handed out; where it is raised or held elsewhere, nothing is done.
    #[must_use]
    pub fn trigger_scan(&mut self) -> (ticket: Option<ScanTicket>)
        ensures
            exists|probe: FlagProbe|
                ticket is Some == old(self)@.may_start(probe) && final(self)@ == old(
                    self,
                )@.triggered(probe),
            old(self)@.scanning ==> ticket is None,
            ticket is None ==> final(self)@ == old(self)@,
            ticket is Some ==> final(self)@ == (NetworkView { scanning: true, ..old(self)@ }),
    {
        if self.scanning {
            return None;
        }
        let guard = try_hold(&self.flag);
        let start = self.may_start(probe_of(&guard));
        match guard {
            Some(mut held) => {
                if start {
                    set_raised(&mut held, true);
                }
            },
            None => {
                assert(!start);
            },
        }
        if !start {
            return None;
        }
        let (sender, receiver) = open_channel();
        self.receiver = Some(receiver);
        self.scanning = true;
        Some(ScanTicket { flag: share_flag(&self.flag), sender })
    }

    /// Takes in the end of a scan: the networks of a completed scan take the
    /// place of the current results, a failed scan leaves them, and the
    /// coordinator is idle. While idle, nothing is done.
    ///
    /// This is what [`Network::poll`] does with the outcome that it takes
    /// from the channel. A caller that hands in an outcome of its own ends
    /// the scan for the coordinator alone: what the worker sends later is
    /// lost, and the flag keeps a new scan from starting until the worker has
    /// lowered it.
    pub fn absorb(&mut self, outcome: ScanOutcome)
        ensures
            final(self)@ == old(self)@.absorbed(outcome@),
    {
        if !self.scanning {
            return ;
        }
        match outcome {
            ScanOutcome::Completed(report) => {
                self.last_scan = ScanStatus::Completed { skipped: report.skipped() };
                self.results = report;
            },
            ScanOutcome::Failed => {
                self.last_scan = ScanStatus::Failed;
            },
        }
        self.scanning = false;
        self.receiver = None;
    }

    /// What [`Network::poll`] does once it has read `probe` of the flag.
    ///
    /// Unless the coordinator is scanning and the flag was found down,
    /// nothing is done: a flag that is raised or held elsewhere leaves the
    /// coordinator as it is, scanning if it was. Otherwise the channel is
    /// looked into, without waiting; where it holds nothing yet, nothing is
    /// done, and where it holds the outcome of the scan, that is taken in as
    /// [`Network::absorb`] does it.
    pub fn poll_given(&mut self, probe: FlagProbe)
        ensures
            exists|pending: Option<ScanOutcomeView>|
                final(self)@ == old(self)@.polled(probe, pending),
            !old(self)@.awaits(probe) ==> final(self)@ == old(self)@,
            final(self)@.scanning ==> final(self)@ == old(self)@,
    {
        if !(self.scanning && matches!(probe, FlagProbe::Clear)) {
            return ;
        }
        let pending = match &self.receiver {
            Some(receiver) => take_outcome(receiver),
            None => None,
        };
        match pending {
            Some(outcome) => {
                let ghost taken = outcome@;
                self.absorb(outcome);
                assert(self@ == old(self)@.polled(probe, Some(taken)));
            },
            None => {
                assert(self@ == old(self)@.polled(probe, None));
            },
        }
    }

    /// Looks whether the scan has ended, and takes in what it found. Never
    /// waits.
    ///
    /// The shared flag is looked at, and the rest is done as
    /// [`Network::poll_given`] does it. The results change all at once or not
    /// at all, and only as the coordinator goes from scanning to idle.
    pub fn poll(&mut self)
        ensures
            exists|probe: FlagProbe, pending: Option<ScanOutcomeView>|
                final(self)@ == old(self)@.polled(probe, pending),
            !old(self)@.scanning ==> final(self)@ == old(self)@,
            final(self)@.scanning ==> final(self)@ == old(self)@,
    {
        let probe = probe_of(&try_hold(&self.flag));
        self.poll_given(probe);
    }

    /// Whether a scan is under way.
    pub fn is_scanning(&self) -> (scanning: bool)
        ensures
            scanning == self@.scanning,
    {
        self.scanning
    }

    /// How the last scan ended.
    pub fn last_scan(&self) -> (status: ScanStatus)
        ensures
            status == self@.last_scan,
    {
        self.last_scan
    }

    /// The networks that the last completed scan found, in its order. Each
    /// has its place as identifier, and none has an empty name.
    pub fn current_results(&self) -> (results: &Vec<Wifi>)
        ensures
            wifi_views(results@) == self@.results,
            well_numbered(self@.results),
    {
        self.results.networks()
    }

    /// Chooses the network with the identifier `id`. Nothing else changes,
    /// and `id` need not be the identifier of a current result.
    pub fn set_selection(&mut self, id: usize)
        ensures
            final(self)@ == (NetworkView { selection: Some(id), ..old(self)@ }),
    {
        self.selection = Some(id);
    }

    /// The identifier that the user chose, if any.
    pub fn selection(&self) -> (selection: Option<usize>)
        ensures
            selection == self@.selection,
    {
        self.selection
    }

    /// The network that the selection stands for among the current results,
    /// if there is one.
    pub fn selected(&self) -> (wifi: Option<&Wifi>)
        ensures
            match wifi {
                Some(wifi) => self@.selected() == Some(wifi@),
                None => self@.selected() is None,
            },
    {
        let results = self.results.networks();
        match self.selection {
            Some(id) => if id < results.len() {
                Some(&results[id])
            } else {
                None
            },
            None => None,
        }
    }

    /// The interfaces, in the order in which they were listed.
    pub fn devices(&self) -> (devices: &Vec<Device>)
        ensures
            device_views(devices@) == self@.devices,
    {
        &self.devices
    }

    /// Sets whether the interface at `index` is to be connected. An index
    /// beyond the interfaces changes nothing.
    pub fn set_device_status(&mut self, index: usize, status: bool)
        ensures
            final(self)@ == if index < old(self)@.devices.len() {
                NetworkView {
                    devices: old(self)@.devices.update(
                        index as int,
                        DeviceView { status, ..old(self)@.devices[index as int] },
                    ),
                    ..old(self)@
                }
            } else {
                old(self)@
            },
    {
        if index < self.devices.len() {
            let ghost before = device_views(self.devices@);
            let name = self.devices[index].device.clone();
            self.devices.set(index, Device { device: name, status });
            proof {
                assert(device_views(self.devices@) =~= before.update(
                    index as int,
                    DeviceView { status, ..before[index as int] },
                ));
            }
        }
    }

    /// Whether `name` is the name of a known network.
    pub fn is_known(&self, name: &str) -> (known: bool)
        ensures
            known == self@.known.contains(name@),
    {
        self.known.contains(name)
    }

    /// The commands that applying the page issues: for each interface, in
    /// order, to connect or to disconnect it; then to join the chosen
    /// network, under the name that it is stored with, where the selection
    /// stands for one of the current results.
    pub fn apply(&self) -> (actions: Vec<Action>)
        ensures
            action_views(actions@) == self@.plan(),
    {
        let mut actions: Vec<Action> = Vec::new();
        let mut i: usize = 0;
        while i < self.devices.len()
            invariant
                i <= self.devices.len(),
                action_views(actions@) == self@.device_actions().take(i as int),
            decreases self.devices.len() - i,
        {
            let device = &self.devices[i];
            let name = device.device.clone();
            let action = if device.status {
                Action::Connect { device: name }
            } else {
                Action::Disconnect { device: name }
            };
            actions.push(action);
            proof {
                let all = self@.device_actions();
                assert(all.take(i + 1) =~= all.take(i as int).push(all[i as int]));
            }
            i += 1;
        }
        let ghost before = action_views(actions@);
        if let Some(wifi) = self.selected() {
            let action = Action::Join { ssid: wifi.ssid.clone() };
            actions.push(action);
            proof {
                assert(action_views(actions@) =~= before + seq![action@]);
            }
        }
        actions
    }
}

} // verus!
