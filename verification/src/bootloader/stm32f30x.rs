//! The bootloader-entry protocol of the stm32f30x parts, modeled: one
//! battery-backed register survives a reset, and a fixed magic value in it
//! makes the next boot jump into the system bootloader region instead of
//! the application.

use vstd::prelude::*;

verus! {

/// The magic value that marks a pending bootloader request.
pub const BOOTLOADER_REQUEST: u32 = 93;

/// Where the next boot will hand execution.
#[derive(Clone, Copy, PartialEq, Eq, Structural, Debug)]
pub enum BootTarget {
    /// Normal start into the application.
    Application,
    /// Diverted start into the chip's system bootloader.
    SystemBootloader,
}

/// The modeled reset path: the backup register, whether a reset has been
/// issued, and where the boot-entry check last decided to go.
pub struct Bootloader {
    /// The battery-backed register the intent survives in.
    pub bkp0: u32,
    /// A processor reset has been requested this run.
    pub reset_pending: bool,
    /// Outcome of the last boot-entry check.
    pub target: BootTarget,
}

impl Bootloader {
    /// The state right after a power-up with a clear backup domain.
    pub fn new() -> (b: Bootloader)
        ensures
            b == (Bootloader {
                bkp0: 0,
                reset_pending: false,
                target: BootTarget::Application,
            }),
    {
        Bootloader { bkp0: 0, reset_pending: false, target: BootTarget::Application }
    }
}

impl crate::bootloader::Bootloader for Bootloader {
    /// Divert the boot exactly when the magic value sits in the backup
    /// register; otherwise nothing changes.
    fn check_request(&mut self)
        ensures
            *final(self) == if old(self).bkp0 == BOOTLOADER_REQUEST {
                Bootloader { target: BootTarget::SystemBootloader, ..*old(self) }
            } else {
                *old(self)
            },
    {
        if self.bkp0 == BOOTLOADER_REQUEST {
            self.target = BootTarget::SystemBootloader;
        }
    }

    /// Write the magic value into the backup register, then reset: the next
    /// boot's check will divert.
    fn to_bootloader(&mut self)
        ensures
            *final(self) == (Bootloader {
                bkp0: BOOTLOADER_REQUEST,
                reset_pending: true,
                ..*old(self)
            }),
    {
        self.bkp0 = BOOTLOADER_REQUEST;
        self.reset_pending = true;
    }

    /// Reset the processor; the backup register keeps its value.
    fn system_reset(&mut self)
        ensures
            *final(self) == (Bootloader { reset_pending: true, ..*old(self) }),
    {
        self.reset_pending = true;
    }
}

} // verus!
