use core::marker::PhantomData;

use vstd::prelude::*;

use crate::{
    nonblocking::WouldBlock,
    pac,
    pins::{self, Pin},
    swm::{self, FunctionTrait},
};

use super::{
    flags::{flag_reset_value, flag_set_in, Flag, Interrupts},
    instances::Instance,
    rx::bit_set,
    state::{CtsThrottle, Enabled, NoThrottle, Word},
};

verus! {

/// The CTSEN bit of CFG (bit 9), which enables throttling via CTS
pub const CFG_CTSEN: u32 = 0x200;

/// USART transmitter
///
/// The transmitter shares the USART's registers with the receiver. Methods
/// that use the registers take the USART instance that holds them; `write`
/// and `flush` take the value read from STAT and leave the data register to
/// the caller.
pub struct Tx<I, State, Throttle> {
    /// The USART instance
    pub instance: PhantomData<I>,
    /// The USART's state
    pub state: PhantomData<State>,
    /// Whether transmission is throttled
    pub throttle: Throttle,
}

impl<I, State> Tx<I, State, NoThrottle> {
    /// Create the transmitter
    pub(crate) fn new() -> Self {
        Self { instance: PhantomData, state: PhantomData, throttle: NoThrottle }
    }
}

impl<I, W, Mode, Throttle> Tx<I, Enabled<W, Mode>, Throttle> where I: Instance, W: Word {
    /// Enable RTS signal
    ///
    /// Configure the transmitter to assert the Request to Send (RTS) signal,
    /// when it is ready to send.
    ///
    /// This is a convenience method that ensures the correct RTS function for
    /// this peripheral instance is assigned to a pin. The same effect can be
    /// achieved by just assigning the function using the SWM API.
    pub fn enable_rts<P, S>(
        &mut self,
        function: swm::Function<I::Rts, swm::state::Unassigned>,
        pin: Pin<P, S>,
        swm: &mut swm::Handle,
    ) -> (result: (
        swm::Function<I::Rts, swm::state::Assigned<P>>,
        <Pin<P, S> as swm::AssignFunction<
            I::Rts,
            <I::Rts as swm::FunctionTrait<P>>::Kind,
        >>::Assigned,
    )) where
        P: pins::Trait,
        S: pins::State,
        Pin<P, S>: swm::AssignFunction<I::Rts, <I::Rts as swm::FunctionTrait<P>>::Kind>,
        I::Rts: swm::FunctionTrait<P>,

        ensures
            function.ty.assigned(pin.ty, old(swm).swm, final(swm).swm),
            result.0.ty == function.ty,
    {
        function.assign(pin, swm)
    }

    /// Disable RTS signal
    ///
    /// Configure the transmitter to no longer assert the Request to Send (RTS)
    /// signal.
    ///
    /// This is a convenience method that ensures the correct RTS function for
    /// this peripheral instance is unassigned. The same effect can be achieved
    /// by just unassigning the function using the SWM API.
    pub fn disable_rts<P, S>(
        &mut self,
        function: swm::Function<I::Rts, swm::state::Assigned<P>>,
        pin: Pin<P, S>,
        swm: &mut swm::Handle,
    ) -> (result: (
        swm::Function<I::Rts, swm::state::Unassigned>,
        <Pin<P, S> as swm::UnassignFunction<
            I::Rts,
            <I::Rts as swm::FunctionTrait<P>>::Kind,
        >>::Unassigned,
    )) where
        P: pins::Trait,
        S: pins::State,
        Pin<P, S>: swm::UnassignFunction<I::Rts, <I::Rts as swm::FunctionTrait<P>>::Kind>,
        I::Rts: swm::FunctionTrait<P>,

        ensures
            function.ty.unassigned(pin.ty, old(swm).swm, final(swm).swm),
            result.0.ty == function.ty,
    {
        function.unassign(pin, swm)
    }

    /// Query whether the provided flag is set
    ///
    /// Looks at the USART's status register as last read from the device.
    /// Flags that need to be reset by software are reset by this operation;
    /// on the device, by writing [`Flag::reset_value`] to STAT.
    pub fn is_flag_set(&self, flag: Flag, usart: &mut I) -> (set: bool)
        ensures
            set == flag_set_in(flag, old(usart).regs().stat),
            final(usart).regs() == (pac::UsartRegisters {
                stat: old(usart).regs().stat & !flag_reset_value(flag),
                ..old(usart).regs()
            }),
            final(usart).clock_mask() == old(usart).clock_mask(),
    {
        let mut regs = usart.registers();
        let set = flag.is_set(regs.stat);
        regs.stat = regs.stat & !flag.reset_value();
        usart.set_registers(regs);
        set
    }

    /// Enable interrupts
    ///
    /// Enables all interrupts set to `true` in `interrupts`. Interrupts set to
    /// `false` are not affected.
    pub fn enable_interrupts(&mut self, usart: &mut I, interrupts: Interrupts)
        ensures
            final(usart).regs() == (pac::UsartRegisters {
                inten: old(usart).regs().inten | interrupts.spec_mask(),
                ..old(usart).regs()
            }),
    {
        let mut regs = usart.registers();
        regs.inten = regs.inten | interrupts.mask();
        usart.set_registers(regs);
    }

    /// Disable interrupts
    ///
    /// Disables all interrupts set to `true` in `interrupts`. Interrupts set to
    /// `false` are not affected.
    pub fn disable_interrupts(&mut self, usart: &mut I, interrupts: Interrupts)
        ensures
            final(usart).regs() == (pac::UsartRegisters {
                inten: old(usart).regs().inten & !interrupts.spec_mask(),
                ..old(usart).regs()
            }),
    {
        let mut regs = usart.registers();
        regs.inten = regs.inten & !interrupts.mask();
        usart.set_registers(regs);
    }

    /// Writes a single word
    ///
    /// Decides on STAT as last read from the device. If the transmitter is
    /// ready (TXRDY, bit 2), returns the value to write to TXDAT; otherwise the
    /// write would block.
    pub fn write(&mut self, usart: &I, word: W) -> (result: Result<u16, WouldBlock>)
        ensures
            result == if bit_set(usart.regs().stat, 2) {
                Ok::<u16, WouldBlock>(word.spec_to_u16())
            } else {
                Err(WouldBlock)
            },
    {
        let stat = usart.registers().stat;
        if (stat >> 2u32) & 1 != 1 {
            return Err(WouldBlock);
        }
        Ok(word.to_u16())
    }

    /// Ensures that none of the previously written words are still buffered
    ///
    /// Decides on STAT as last read from the device. Completes once the
    /// transmitter is idle (TXIDLE, bit 3).
    pub fn flush(&mut self, usart: &I) -> (result: Result<(), WouldBlock>)
        ensures
            result == if bit_set(usart.regs().stat, 3) {
                Ok::<(), WouldBlock>(())
            } else {
                Err(WouldBlock)
            },
    {
        let stat = usart.registers().stat;
        if (stat >> 3u32) & 1 != 1 {
            return Err(WouldBlock);
        }
        Ok(())
    }
}

impl<I, W, Mode> Tx<I, Enabled<W, Mode>, NoThrottle> where I: Instance, W: Word {
    /// Enable throttling via CTS signal
    ///
    /// Configure the transmitter to only transmit, while the CTS signal is
    /// asserted.
    pub fn enable_cts_throttling<P>(
        self,
        function: swm::Function<I::Cts, swm::state::Assigned<P>>,
        usart: &mut I,
    ) -> (tx: Tx<I, Enabled<W, Mode>, CtsThrottle<swm::Function<I::Cts, swm::state::Assigned<P>>>>)
        ensures
            final(usart).regs() == (pac::UsartRegisters {
                cfg: old(usart).regs().cfg | CFG_CTSEN,
                ..old(usart).regs()
            }),
            tx.throttle.0 == function,
    {
        let mut regs = usart.registers();
        regs.cfg = regs.cfg | CFG_CTSEN;
        usart.set_registers(regs);

        Tx { instance: self.instance, state: self.state, throttle: CtsThrottle(function) }
    }
}

impl<I, W, Mode, Function> Tx<I, Enabled<W, Mode>, CtsThrottle<Function>> where
    I: Instance,
    W: Word,
 {
    /// Disable throttling via CTS signal
    ///
    /// Configure the transmitter to ignore the CTS signal. Returns the SWM
    /// function for the CTS signal, so it can be reused to enable CTS
    /// throttling again, or for something else.
    pub fn disable_cts_throttling(self, usart: &mut I) -> (result: (
        Tx<I, Enabled<W, Mode>, NoThrottle>,
        Function,
    ))
        ensures
            final(usart).regs() == (pac::UsartRegisters {
                cfg: old(usart).regs().cfg & !CFG_CTSEN,
                ..old(usart).regs()
            }),
            result.1 == self.throttle.0,
    {
        let mut regs = usart.registers();
        regs.cfg = regs.cfg & !CFG_CTSEN;
        usart.set_registers(regs);

        (Tx { instance: self.instance, state: self.state, throttle: NoThrottle }, self.throttle.0)
    }
}

} // verus!
