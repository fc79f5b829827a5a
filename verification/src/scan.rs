//! A whole scan listing, read into the networks that it describes.
//!
//! The lines are read in their order. A line with an empty name is left out,
//! and so is a line that cannot be read; the second kind is counted. One bad
//! line therefore never costs the rest of the scan. The networks that are
//! kept are numbered from 0 in the order of their lines.

use crate::record::{line_outcome, parse_record, Wifi, WifiView};
use crate::text::{lines_of, split_lines, to_chars, views_of};
use vstd::prelude::*;

verus! {

/// Whether `line` describes a network.
pub open spec fn emits(line: Seq<char>) -> bool {
    line_outcome(line, 0) is Record
}

/// Whether `line` cannot be read.
pub open spec fn malformed(line: Seq<char>) -> bool {
    line_outcome(line, 0) is Malformed
}

/// The network that `line` describes, with the identifier `id`.
pub open spec fn record_of(line: Seq<char>, id: nat) -> WifiView
    recommends
        emits(line),
{
    line_outcome(line, id)->Record_0
}

/// The lines among `lines` that describe a network, in their order.
pub open spec fn emitting_lines(lines: Seq<Seq<char>>) -> Seq<Seq<char>> {
    lines.filter(|line: Seq<char>| emits(line))
}

/// The lines among `lines` that cannot be read, in their order.
pub open spec fn malformed_lines(lines: Seq<Seq<char>>) -> Seq<Seq<char>> {
    lines.filter(|line: Seq<char>| malformed(line))
}

/// The networks of a listing: those of the lines that describe one, in the
/// order of the lines, each with its place in this sequence as identifier.
pub open spec fn scan_networks(lines: Seq<Seq<char>>) -> Seq<WifiView> {
    let rows = emitting_lines(lines);
    Seq::new(rows.len(), |i: int| record_of(rows[i], i as nat))
}

/// The number of lines of a listing that cannot be read.
pub open spec fn scan_skipped(lines: Seq<Seq<char>>) -> nat {
    malformed_lines(lines).len()
}

/// What one more line adds to the lines that describe a network and to those
/// that cannot be read.
pub proof fn lemma_one_more_line(lines: Seq<Seq<char>>, line: Seq<char>)
    ensures
        emitting_lines(lines.push(line)) == if emits(line) {
            emitting_lines(lines).push(line)
        } else {
            emitting_lines(lines)
        },
        malformed_lines(lines.push(line)) == if malformed(line) {
            malformed_lines(lines).push(line)
        } else {
            malformed_lines(lines)
        },
        emitting_lines(lines).len() <= lines.len(),
        malformed_lines(lines).len() <= lines.len(),
{
    Seq::lemma_filter_push(lines, line, |line: Seq<char>| emits(line));
    Seq::lemma_filter_push(lines, line, |line: Seq<char>| malformed(line));
}

/// The views of a sequence of networks.
pub open spec fn wifi_views(networks: Seq<Wifi>) -> Seq<WifiView> {
    Seq::new(networks.len(), |i: int| networks[i]@)
}

/// Whether `networks` can be the result of a scan: each network has its place
/// as identifier, and none has an empty name.
pub open spec fn well_numbered(networks: Seq<WifiView>) -> bool {
    forall|i: int|
        0 <= i < networks.len() ==> (#[trigger] networks[i]).id == i && networks[i].ssid.len() > 0
}

/// The networks found by one scan, and the number of lines left unread.
#[derive(Debug)]
pub struct ScanReport {
    networks: Vec<Wifi>,
    skipped: usize,
}

impl ScanReport {
    #[verifier::type_invariant]
    spec fn numbered(self) -> bool {
        well_numbered(wifi_views(self.networks@))
    }

    /// The networks, in the order of the listing.
    pub closed spec fn found(self) -> Seq<WifiView> {
        wifi_views(self.networks@)
    }

    /// The number of lines that could not be read.
    pub closed spec fn unread(self) -> usize {
        self.skipped
    }

    /// The report of a scan that found nothing and left no line unread.
    pub fn empty() -> (report: ScanReport)
        ensures
            report.found() == Seq::<WifiView>::empty(),
            report.unread() == 0,
    {
        ScanReport { networks: Vec::new(), skipped: 0 }
    }

    /// The networks, in the order of the listing.
    pub fn networks(&self) -> (networks: &Vec<Wifi>)
        ensures
            wifi_views(networks@) == self.found(),
            well_numbered(self.found()),
    {
        proof {
            use_type_invariant(self);
        }
        &self.networks
    }

    /// The networks, in the order of the listing.
    pub fn into_networks(self) -> (networks: Vec<Wifi>)
        ensures
            wifi_views(networks@) == self.found(),
            well_numbered(self.found()),
    {
        proof {
            use_type_invariant(&self);
        }
        self.networks
    }

    /// The number of lines that could not be read.
    pub fn skipped(&self) -> (skipped: usize)
        ensures
            skipped == self.unread(),
    {
        self.skipped
    }
}

/// How a scan ended.
#[derive(Debug)]
pub enum ScanOutcome {
    /// The listing was read.
    Completed(ScanReport),
    /// No listing could be had.
    Failed,
}

/// The mathematical value of a [`ScanOutcome`].
pub enum ScanOutcomeView {
    Completed { networks: Seq<WifiView>, skipped: usize },
    Failed,
}

impl View for ScanOutcome {
    type V = ScanOutcomeView;

    open spec fn view(&self) -> ScanOutcomeView {
        match self {
            ScanOutcome::Completed(report) => ScanOutcomeView::Completed {
                networks: report.found(),
                skipped: report.unread(),
            },
            ScanOutcome::Failed => ScanOutcomeView::Failed,
        }
    }
}

/// A line that describes no network changes nothing in the networks of a
/// listing, wherever it stands: it takes no identifier.
pub proof fn lemma_silent_line_takes_no_id(
    before: Seq<Seq<char>>,
    line: Seq<char>,
    after: Seq<Seq<char>>,
)
    requires
        !emits(line),
    ensures
        scan_networks(before + seq![line] + after) == scan_networks(before + after),
{
    let pred = |line: Seq<char>| emits(line);
    Seq::filter_distributes_over_add(before + seq![line], after, pred);
    Seq::filter_distributes_over_add(before, seq![line], pred);
    Seq::filter_distributes_over_add(before, after, pred);
    lemma_one_more_line(Seq::empty(), line);
    assert(emitting_lines(Seq::empty()) =~= Seq::<Seq<char>>::empty()) by {
        reveal(Seq::filter);
    }
}

/// The networks of a listing are as many as its lines that describe one; each
/// has its place as identifier, and none has an empty name.
pub proof fn lemma_scan_networks_numbered(lines: Seq<Seq<char>>)
    ensures
        scan_networks(lines).len() == emitting_lines(lines).len(),
        well_numbered(scan_networks(lines)),
{
}

/// Reads a scan listing.
pub fn parse_scan(text: &str) -> (report: ScanReport)
    ensures
        report.found() == scan_networks(lines_of(text@)),
        report.unread() == scan_skipped(lines_of(text@)),
{
    let chars = to_chars(text);
    let lines = split_lines(chars.as_slice());
    let ghost all = lines_of(text@);
    let mut networks: Vec<Wifi> = Vec::new();
    let mut skipped: usize = 0;
    let mut i: usize = 0;
    proof {
        reveal(Seq::filter);
    }
    while i < lines.len()
        invariant
            i <= lines.len(),
            views_of(lines@) == all,
            wifi_views(networks@) == scan_networks(all.take(i as int)),
            skipped == scan_skipped(all.take(i as int)),
            skipped <= i,
        decreases lines.len() - i,
    {
        let ghost line = all[i as int];
        let ghost seen = all.take(i as int);
        proof {
            assert(all.take(i + 1) =~= seen.push(line));
            lemma_one_more_line(seen, line);
        }
        let id = networks.len();
        match parse_record(lines[i].as_slice(), id) {
            Ok(Some(wifi)) => {
                let ghost before = wifi_views(networks@);
                networks.push(wifi);
                proof {
                    let rows = emitting_lines(seen);
                    let next = scan_networks(all.take(i + 1));
                    assert(before.len() == rows.len());
                    assert forall|k: int| 0 <= k < next.len() implies wifi_views(networks@)[k]
                        == next[k] by {
                        if k < rows.len() {
                            assert(before[k] == record_of(rows[k], k as nat));
                        }
                    }
                }
            },
            Ok(None) => {},
            Err(_) => {
                skipped += 1;
            },
        }
        i += 1;
    }
    proof {
        assert(all.take(i as int) =~= all);
    }
    ScanReport { networks, skipped }
}

} // verus!
