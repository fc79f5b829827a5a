//! State of the network page of a control panel: the interfaces of the
//! machine, the wireless networks in range, the networks already known, and
//! the scan that finds the networks in range without holding up the caller.
//!
//! The library runs no command and starts no thread. The caller hands it the
//! text that the listing commands print, runs each scan on a thread of its
//! own, and issues the commands that [`Network::apply`] returns.

pub mod escape;
pub mod listing;
pub mod model;
pub mod network;
pub mod number;
pub mod protocol;
pub mod record;
pub mod scan;
pub mod sync;
pub mod text;

pub use crate::listing::Device;
pub use crate::model::{Action, FlagProbe, ScanStatus};
pub use crate::network::{Delivery, Network, ScanTicket};
pub use crate::record::{parse_line, ParseError, Wifi, CURRENT_SUFFIX};
pub use crate::scan::{parse_scan, ScanOutcome, ScanReport};
