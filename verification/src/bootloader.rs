//! Reboot intent: the discipline that lets a running system ask for the next
//! boot to enter the system bootloader instead of the application.

pub mod stm32f30x;

use vstd::prelude::*;

verus! {

/// What a bootloader implementation must offer: check the intent at boot,
/// record the intent and reset, or just reset.
pub trait Bootloader {
    /// At boot: if the reboot-intent magic is present, divert execution to
    /// the system bootloader.
    fn check_request(&mut self);

    /// Record the reboot intent and reset the processor.
    fn to_bootloader(&mut self);

    /// Reset the processor.
    fn system_reset(&mut self);
}

} // verus!
