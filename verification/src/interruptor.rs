//! The latch by which a running loop is asked to stop.

use std::sync::atomic::{AtomicBool, Ordering};
use std::sync::Arc;
use vstd::prelude::*;

verus! {

/// Exit code of a process that a second interrupt forces down where signals
/// are numbered: 128 plus the number of the interrupt signal, 2.
pub const FORCED_EXIT_UNIX: i32 = 130;

/// Exit code of a process that a second interrupt forces down elsewhere: the
/// status "terminated by Ctrl-C", `0xC000013A`, read as a signed number.
pub const FORCED_EXIT_OTHER: i32 = -1073741510;

/// A handle on a latch shared between the loop and whoever asks it to stop.
///
/// Every clone of a handle refers to the same latch. The latch starts clear,
/// can be set, and is never cleared again. What one handle reads depends on
/// what other holders have done meanwhile, so no contract speaks of it.
#[derive(Clone, Debug)]
pub struct Interruptor {
    flag: Arc<AtomicBool>,
}

impl Interruptor {
    /// A handle on a new latch, which is clear.
    pub fn new() -> Interruptor {
        Interruptor { flag: Arc::new(AtomicBool::new(false)) }
    }

    /// Sets the latch. Setting it again changes nothing.
    pub fn set(&self) {
        self.flag.store(true, Ordering::SeqCst);
    }

    /// Reads the latch without blocking.
    pub fn is_set(&self) -> bool {
        self.flag.load(Ordering::SeqCst)
    }
}

/// What an interrupt calls for.
#[derive(Clone, Copy, Debug, PartialEq, Eq, Structural)]
pub enum InterruptResponse {
    /// Set the latch and let the loop wind down.
    RequestShutdown,
    /// End the process at once with this exit code, skipping all cleanup.
    ForceExit(i32),
}

/// Decides what an interrupt calls for, given whether the latch was already
/// set when it arrived and whether the platform is of the Unix family.
///
/// The first interrupt requests a shutdown. One that finds the latch set
/// forces the process down with the platform's exit code.
pub fn interrupt_response(already_set: bool, unix: bool) -> (r: InterruptResponse)
    ensures
        !already_set ==> r == InterruptResponse::RequestShutdown,
        already_set && unix ==> r == InterruptResponse::ForceExit(FORCED_EXIT_UNIX),
        already_set && !unix ==> r == InterruptResponse::ForceExit(FORCED_EXIT_OTHER),
{
    if !already_set {
        InterruptResponse::RequestShutdown
    } else if unix {
        InterruptResponse::ForceExit(FORCED_EXIT_UNIX)
    } else {
        InterruptResponse::ForceExit(FORCED_EXIT_OTHER)
    }
}

} // verus!
