use vstd::prelude::*;

use crate::{
    pac, swm,
    syscon::{self, clock_source::PeripheralClockSelector},
};

use super::private;

verus! {

/// Implemented for all USART instances
pub trait Instance: private::Sealed + syscon::ClockControl + syscon::ResetControl +
    PeripheralClockSelector {
    /// The movable function that needs to be assigned to this USART's RX pin
    type Rx;

    /// The movable function that needs to be assigned to this USART's TX pin
    type Tx;

    /// The movable function that can be assigned to this USART's RTS pin
    type Rts;

    /// The movable function that can be assigned to this USART's CTS pin
    type Cts;

    /// The number of the interrupt that is triggered for this USART
    spec fn interrupt() -> u32;

    /// The instance's registers
    spec fn regs(&self) -> pac::UsartRegisters;

    /// The number of the interrupt that is triggered for this USART
    fn interrupt_number() -> (n: u32)
        ensures
            n == Self::interrupt(),
            n < 32,
    ;

    /// Read the instance's registers
    fn registers(&self) -> (regs: pac::UsartRegisters)
        ensures
            regs == self.regs(),
    ;

    /// Replace the instance's registers
    fn set_registers(&mut self, regs: pac::UsartRegisters)
        ensures
            final(self).regs() == regs,
            syscon::ClockControl::clock_mask(final(self)) == syscon::ClockControl::clock_mask(old(self)),
    ;
}

impl private::Sealed for pac::USART0 {}

impl Instance for pac::USART0 {
    type Rx = swm::U0_RXD;
    type Tx = swm::U0_TXD;
    type Rts = swm::U0_RTS;
    type Cts = swm::U0_CTS;

    open spec fn interrupt() -> u32 {
        3
    }

    open spec fn regs(&self) -> pac::UsartRegisters {
        self.regs
    }

    fn interrupt_number() -> u32 {
        3
    }

    fn registers(&self) -> pac::UsartRegisters {
        self.regs
    }

    fn set_registers(&mut self, regs: pac::UsartRegisters) {
        self.regs = regs;
    }
}

impl PeripheralClockSelector for pac::USART0 {
    open spec fn register_num() -> usize {
        0
    }

    fn register_index() -> usize {
        0
    }
}

impl private::Sealed for pac::USART1 {}

impl Instance for pac::USART1 {
    type Rx = swm::U1_RXD;
    type Tx = swm::U1_TXD;
    type Rts = swm::U1_RTS;
    type Cts = swm::U1_CTS;

    open spec fn interrupt() -> u32 {
        4
    }

    open spec fn regs(&self) -> pac::UsartRegisters {
        self.regs
    }

    fn interrupt_number() -> u32 {
        4
    }

    fn registers(&self) -> pac::UsartRegisters {
        self.regs
    }

    fn set_registers(&mut self, regs: pac::UsartRegisters) {
        self.regs = regs;
    }
}

impl PeripheralClockSelector for pac::USART1 {
    open spec fn register_num() -> usize {
        1
    }

    fn register_index() -> usize {
        1
    }
}

impl private::Sealed for pac::USART2 {}

impl Instance for pac::USART2 {
    type Rx = swm::U2_RXD;
    type Tx = swm::U2_TXD;
    type Rts = swm::U2_RTS;
    type Cts = swm::U2_CTS;

    open spec fn interrupt() -> u32 {
        5
    }

    open spec fn regs(&self) -> pac::UsartRegisters {
        self.regs
    }

    fn interrupt_number() -> u32 {
        5
    }

    fn registers(&self) -> pac::UsartRegisters {
        self.regs
    }

    fn set_registers(&mut self, regs: pac::UsartRegisters) {
        self.regs = regs;
    }
}

impl PeripheralClockSelector for pac::USART2 {
    open spec fn register_num() -> usize {
        2
    }

    fn register_index() -> usize {
        2
    }
}

} // verus!
