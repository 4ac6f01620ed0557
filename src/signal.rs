use vstd::prelude::*;

use std::sync::atomic::{AtomicBool, Ordering};
use std::sync::Arc;

use crate::error::Error;

verus! {

/// The signals whose handling the operating system or the signal library
/// reserves: `SIGILL`, `SIGFPE`, `SIGKILL`, `SIGSEGV` and `SIGSTOP`.
pub open spec fn forbidden_signal(signal: i32) -> bool {
    signal == 4 || signal == 8 || signal == 9 || signal == 11 || signal == 19
}

/// Relies on `signal_hook::flag::register`: arranges for `flag` to be set
/// whenever `signal` arrives; it panics on a reserved signal, and fails with
/// the operating system's error otherwise.
#[verifier::external_body]
fn register_flag(signal: i32, flag: Arc<AtomicBool>) -> (r: Result<(), String>)
    requires
        !forbidden_signal(signal),
{
    match signal_hook::flag::register(signal, flag) {
        Ok(_) => Ok(()),
        Err(e) => Err(e.to_string()),
    }
}

/// A flag that a signal sets, shared by every clone of the handle.
#[derive(Clone)]
pub struct SignalHandle {
    flag: Arc<AtomicBool>,
}

impl SignalHandle {
    /// A handle whose flag `signal` sets; fails with `Io` when the handler
    /// cannot be installed.
    pub fn new(signal: i32) -> (r: Result<SignalHandle, Error>)
        requires
            !forbidden_signal(signal),
        ensures
            r matches Err(e) ==> e is Io,
    {
        let flag = Arc::new(AtomicBool::new(false));
        match register_flag(signal, flag.clone()) {
            Ok(()) => Ok(SignalHandle { flag }),
            Err(why) => Err(Error::Io(why)),
        }
    }

    /// Whether the signal arrived since the flag was last cleared.
    pub fn is_set(&self) -> bool {
        self.flag.load(Ordering::Relaxed)
    }

    /// Clears the flag.
    pub fn unset(&self) {
        self.flag.store(false, Ordering::SeqCst);
    }
}

} // verus!
