use vstd::prelude::*;

use crate::{
    pac, swm,
    syscon::{self, clock_source::PeripheralClockSelector},
};

use super::private;

verus! {

/// Implemented for all SPI instance
pub trait Instance: private::Sealed + syscon::ClockControl + syscon::ResetControl +
    PeripheralClockSelector {
    /// The movable function that needs to be assigned to this SPI's SCK pin
    type Sck;

    /// The movable function that needs to be assigned to this SPI's MOSI pin
    type Mosi;

    /// The movable function that needs to be assigned to this SPI's MISO pin
    type Miso;

    /// The instance's registers
    spec fn regs(&self) -> pac::SpiRegisters;

    /// Read the instance's registers
    fn registers(&self) -> (regs: pac::SpiRegisters)
        ensures
            regs == self.regs(),
    ;

    /// Replace the instance's registers
    fn set_registers(&mut self, regs: pac::SpiRegisters)
        ensures
            final(self).regs() == regs,
            syscon::ClockControl::clock_mask(final(self)) == syscon::ClockControl::clock_mask(old(self)),
    ;
}

/// Implemented for slave select functions of a given SPI instance
pub trait SlaveSelect<I>: private::Sealed {}

impl private::Sealed for pac::SPI0 {}

impl Instance for pac::SPI0 {
    type Sck = swm::SPI0_SCK;
    type Mosi = swm::SPI0_MOSI;
    type Miso = swm::SPI0_MISO;

    open spec fn regs(&self) -> pac::SpiRegisters {
        self.regs
    }

    fn registers(&self) -> pac::SpiRegisters {
        self.regs
    }

    fn set_registers(&mut self, regs: pac::SpiRegisters) {
        self.regs = regs;
    }
}

impl PeripheralClockSelector for pac::SPI0 {
    open spec fn register_num() -> usize {
        9
    }

    fn register_index() -> usize {
        9
    }
}

impl private::Sealed for swm::SPI0_SSEL0 {}

impl SlaveSelect<pac::SPI0> for swm::SPI0_SSEL0 {}

impl private::Sealed for swm::SPI0_SSEL1 {}

impl SlaveSelect<pac::SPI0> for swm::SPI0_SSEL1 {}

impl private::Sealed for swm::SPI0_SSEL2 {}

impl SlaveSelect<pac::SPI0> for swm::SPI0_SSEL2 {}

impl private::Sealed for swm::SPI0_SSEL3 {}

impl SlaveSelect<pac::SPI0> for swm::SPI0_SSEL3 {}

impl private::Sealed for pac::SPI1 {}

impl Instance for pac::SPI1 {
    type Sck = swm::SPI1_SCK;
    type Mosi = swm::SPI1_MOSI;
    type Miso = swm::SPI1_MISO;

    open spec fn regs(&self) -> pac::SpiRegisters {
        self.regs
    }

    fn registers(&self) -> pac::SpiRegisters {
        self.regs
    }

    fn set_registers(&mut self, regs: pac::SpiRegisters) {
        self.regs = regs;
    }
}

impl PeripheralClockSelector for pac::SPI1 {
    open spec fn register_num() -> usize {
        10
    }

    fn register_index() -> usize {
        10
    }
}

impl private::Sealed for swm::SPI1_SSEL0 {}

impl SlaveSelect<pac::SPI1> for swm::SPI1_SSEL0 {}

impl private::Sealed for swm::SPI1_SSEL1 {}

impl SlaveSelect<pac::SPI1> for swm::SPI1_SSEL1 {}

} // verus!
