//! Model-level hardware abstraction layer for one Kinetis-family
//! microcontroller: clock-generator bring-up as a typestate machine,
//! clock gating behind a singleton system-integration handle, and
//! exclusively owned pin handles downgraded into fixed-function
//! capabilities.

use vstd::prelude::*;

pub mod bits;
pub mod reg;
pub mod mcg;
pub mod port;
pub mod sim;

verus! {

/// The fatal conditions the driver can detect. Every one of them is
/// unrecoverable on real silicon; the library reports them as values so
/// that an embedding can halt.
#[derive(Debug)]
pub enum Fault {
    /// A singleton handle, clock gate, or pin was acquired twice.
    AlreadyInitialized,
    /// A numeric argument lies outside a hardware-supported table or range.
    InvalidParameter,
    /// A peripheral function was requested on a pin that cannot route it.
    InvalidPinForFunction,
    /// Live clock-generator bits match none of the recognized configurations.
    UnrepresentableHardwareState,
}

/// An exclusion flag standing for a process-wide "this block is live"
/// marker. A bring-up environment owns one flag per singleton register
/// block and hands it to every acquisition and release of that block, so
/// that at most one handle per flag is live at a time.
pub struct InitFlag {
    active: bool,
}

impl InitFlag {
    /// Whether a handle minted against this flag is currently live.
    pub closed spec fn is_active(&self) -> bool {
        self.active
    }

    /// A fresh flag: no handle is live.
    pub fn new() -> (r: InitFlag)
        ensures
            !r.is_active(),
    {
        InitFlag { active: false }
    }

    /// Test-and-set: reports whether the flag was already active and
    /// leaves it active either way.
    pub fn test_and_set(&mut self) -> (was: bool)
        ensures
            was == old(self).is_active(),
            final(self).is_active(),
    {
        let was: bool = self.active;
        self.active = true;
        was
    }

    /// Clears the flag: the handle minted against it is gone.
    pub fn clear(&mut self)
        ensures
            !final(self).is_active(),
    {
        self.active = false;
    }
}

/// The sink for fatal conditions. Bring-up has no reporting channel, so
/// an embedding calls this once a `Fault` is observed and then stops; on
/// bare silicon the stop is a spin that never returns, which a host
/// embedding supplies itself after this returns.
pub fn teensy_panic() {
}

} // verus!
