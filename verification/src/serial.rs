use vstd::prelude::*;

use crate::interrupt::{InterruptFlag, InterruptHandler};
use crate::region::{MemoryRegion, REG_SB_ADDR, REG_SC_ADDR};

verus! {

/// Default value of SB
pub const DEFAULT_REG_SB: u8 = 0x00;
/// Default value of SC
pub const DEFAULT_REG_SC: u8 = 0x7E;

pub const FLAG_SC_TRANSFER: u8 = 0x80;
pub const FLAG_SC_INT_CLOCK: u8 = 0x01;
pub const NEW_CHAR_FLAG: u8 = 0x81;

/// Where the bytes sent on the serial port go.
///
/// An output that keeps what it is handed lists it in `sent`; one that drops it (such as a
/// port with nothing plugged in) does not keep it, and then `sent` tells nothing.
pub trait SerialOutput {
    /// Whether the output keeps the bytes it is handed (by default it does not).
    open spec fn keeps_output(&self) -> bool {
        false
    }

    /// The bytes handed so far, oldest first, for an output that keeps them.
    open spec fn sent(&self) -> Seq<u8> {
        Seq::empty()
    }

    fn putchar(&mut self, c: u8)
        ensures
            final(self).keeps_output() == old(self).keeps_output(),
            old(self).keeps_output() ==> final(self).sent() == old(self).sent().push(c),
    ;
}

/// Serial transfer registers.
pub struct Serial {
    /// Serial transfer data (R/W)
    pub reg_sb: u8,
    /// Serial transfer control (R/W)
    pub reg_sc: u8,
}

impl Serial {
    /// The port after power-on.
    pub open spec fn initial() -> Serial {
        Serial { reg_sb: DEFAULT_REG_SB, reg_sc: DEFAULT_REG_SC }
    }

    /// Whether a transfer on the internal clock is requested.
    pub open spec fn transfer_pending(self) -> bool {
        self.reg_sc & NEW_CHAR_FLAG == NEW_CHAR_FLAG
    }

    pub fn new() -> (s: Self)
        ensures
            s == Self::initial(),
    {
        Self { reg_sb: DEFAULT_REG_SB, reg_sc: DEFAULT_REG_SC }
    }

    /// Reset all registers and states
    pub fn reset(&mut self)
        ensures
            *final(self) == Self::initial(),
    {
        self.reg_sb = DEFAULT_REG_SB;
        self.reg_sc = DEFAULT_REG_SC;
    }

    /// Send the byte in SB when a transfer is pending: the transfer flag drops and the
    /// serial interrupt is raised.
    pub fn step<SO: SerialOutput>(&mut self, out: &mut SO, it: &mut InterruptHandler)
        ensures
            old(self).transfer_pending() ==> *final(self) == (Serial {
                reg_sc: old(self).reg_sc & !FLAG_SC_TRANSFER,
                ..*old(self)
            }) && *final(it) == old(it).requested(InterruptFlag::Serial),
            !old(self).transfer_pending() ==> *final(self) == *old(self) && *final(it) == *old(it)
                && *final(out) == *old(out),
            final(out).keeps_output() == old(out).keeps_output(),
            old(self).transfer_pending() && old(out).keeps_output() ==> final(out).sent() == old(
                out,
            ).sent().push(old(self).reg_sb),
    {
        if (self.reg_sc & NEW_CHAR_FLAG) == NEW_CHAR_FLAG {
            self.reg_sc = self.reg_sc & !FLAG_SC_TRANSFER;
            out.putchar(self.reg_sb);
            it.request(InterruptFlag::Serial);
        }
    }
}

impl MemoryRegion for Serial {
    open spec fn maps(address: u16) -> bool {
        address == REG_SB_ADDR || address == REG_SC_ADDR
    }

    open spec fn inv(&self) -> bool {
        true
    }

    fn read(&self, address: u16) -> (r: u8)
        ensures
            r == (if address == REG_SB_ADDR { self.reg_sb } else { self.reg_sc }),
    {
        if address == REG_SB_ADDR {
            self.reg_sb
        } else {
            self.reg_sc
        }
    }

    fn write(&mut self, address: u16, value: u8)
        ensures
            address == REG_SB_ADDR ==> *final(self) == (Serial { reg_sb: value, ..*old(self) }),
            address == REG_SC_ADDR ==> *final(self) == (Serial { reg_sc: value, ..*old(self) }),
    {
        if address == REG_SB_ADDR {
            self.reg_sb = value;
        } else {
            self.reg_sc = value;
        }
    }
}

} // verus!
