//! The pieces of `std::sync` that the scan uses: the flag that the
//! coordinator shares with the worker of a scan, and the channel on which the
//! worker hands over what it found.
//!
//! Nothing here is proved. What another thread does to the flag or to the
//! channel between two calls is unknown, so these functions promise nothing
//! of what they return: the library is proved for whatever they return.
//!
//! The flag is held only inside a function of the library and let go before
//! that function returns, never across a command or a send. So a thread that
//! waits for the flag in [`hold`] does not hold it already, and does not wait
//! long.

use crate::scan::ScanOutcome;
use std::sync::mpsc::{Receiver, Sender};
use std::sync::{Arc, Mutex, MutexGuard, TryLockError};
use vstd::prelude::*;

verus! {

/// `std::sync::Mutex`, as a type that is carried about.
#[verifier::external_type_specification]
#[verifier::external_body]
#[verifier::reject_recursive_types(T)]
pub struct ExMutex<T: ?Sized>(Mutex<T>);

/// `std::sync::MutexGuard`, as a type that is carried about.
#[verifier::external_type_specification]
#[verifier::external_body]
#[verifier::reject_recursive_types(T)]
pub struct ExMutexGuard<'a, T: ?Sized + 'a>(MutexGuard<'a, T>);

/// `std::sync::mpsc::Sender`, as a type that is carried about.
#[verifier::external_type_specification]
#[verifier::external_body]
#[verifier::reject_recursive_types(T)]
pub struct ExSender<T>(Sender<T>);

/// `std::sync::mpsc::Receiver`, as a type that is carried about.
#[verifier::external_type_specification]
#[verifier::external_body]
#[verifier::reject_recursive_types(T)]
pub struct ExReceiver<T>(Receiver<T>);

/// Calls `Mutex::new`: a new flag that holds `raised`. Nothing is claimed of
/// it.
#[verifier::external_body]
pub(crate) fn new_flag(raised: bool) -> (flag: Mutex<bool>) {
    Mutex::new(raised)
}

/// Calls `Arc::clone`: a second handle to the same flag. Nothing is claimed
/// of it.
#[verifier::external_body]
pub(crate) fn share_flag(flag: &Arc<Mutex<bool>>) -> (shared: Arc<Mutex<bool>>) {
    Arc::clone(flag)
}

/// Calls `Mutex::try_lock`, which never waits: the guard, or `None` where
/// the flag is held elsewhere. A poisoned flag is taken all the same. Nothing
/// is claimed of which of the two comes back.
#[verifier::external_body]
pub(crate) fn try_hold<'a>(flag: &'a Mutex<bool>) -> (guard: Option<MutexGuard<'a, bool>>) {
    match flag.try_lock() {
        Ok(guard) => Some(guard),
        Err(TryLockError::Poisoned(poisoned)) => Some(poisoned.into_inner()),
        Err(TryLockError::WouldBlock) => None,
    }
}

/// Calls `Mutex::lock`, which waits until the flag is free. A poisoned flag
/// is taken all the same. The caller must not hold the flag already.
#[verifier::external_body]
pub(crate) fn hold<'a>(flag: &'a Mutex<bool>) -> (guard: MutexGuard<'a, bool>) {
    match flag.lock() {
        Ok(guard) => guard,
        Err(poisoned) => poisoned.into_inner(),
    }
}

/// Reads the flag through its guard (`Deref`). Nothing is claimed of the
/// value.
#[verifier::external_body]
pub(crate) fn is_raised(guard: &MutexGuard<'_, bool>) -> (raised: bool) {
    **guard
}

/// Writes the flag through its guard (`DerefMut`).
#[verifier::external_body]
pub(crate) fn set_raised(guard: &mut MutexGuard<'_, bool>, raised: bool) {
    **guard = raised;
}

/// Calls `std::sync::mpsc::channel`: the two ends of a new channel.
#[verifier::external_body]
pub(crate) fn open_channel() -> (ends: (Sender<ScanOutcome>, Receiver<ScanOutcome>)) {
    std::sync::mpsc::channel()
}

/// Calls `Sender::send`, which never waits: whether the outcome was taken,
/// which it is not once the receiving end is gone. Nothing is claimed of
/// which.
#[verifier::external_body]
pub(crate) fn send_outcome(sender: &Sender<ScanOutcome>, outcome: ScanOutcome) -> (sent: bool) {
    sender.send(outcome).is_ok()
}

/// Calls `Receiver::try_recv`, which never waits: an outcome that was sent
/// and not yet taken, or `None`. Nothing is claimed of which.
#[verifier::external_body]
pub(crate) fn take_outcome(receiver: &Receiver<ScanOutcome>) -> (outcome: Option<ScanOutcome>) {
    receiver.try_recv().ok()
}

} // verus!
