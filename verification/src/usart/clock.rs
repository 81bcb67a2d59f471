//! Clock configuration of the USART peripherals

use core::marker::PhantomData;

use vstd::prelude::*;

use crate::syscon::{
    self,
    clock_source::{clock_selected, PeripheralClock, PeripheralClockSelector},
    frg,
};

use super::{private, state::AsyncMode};

verus! {

/// Frequency of the internal oscillator that [`Clock::new_with_baudrate`]
/// assumes, in Hz
pub const IOSC_FREQUENCY: u32 = 12_000_000;

/// Defines the clock configuration for a USART instance
///
/// This struct has two type arguments:
/// - `T` specifies the clock used to power the USART clock. This clock will be
///   selected when the USART instance is enabled.
/// - `Mode` specifies the USART mode. A distinction between synchronous and
///   asynchronous mode has to be made, as OSRVAL has no meaning in synchronous
///   mode.
pub struct Clock<T, Mode> {
    /// Value for the BRG register
    pub brgval: u16,
    /// Value for the OSR register
    pub osrval: u8,
    /// The clock source
    pub _clock: PhantomData<T>,
    /// The USART mode
    pub _mode: PhantomData<Mode>,
}

impl<T, Mode> Clock<T, Mode> where T: ClockSource {
    /// Create the clock configuration for the USART
    ///
    /// The `osrval` argument has to be between 5-16. It will be ignored in
    /// synchronous mode.
    pub fn new(_clock: &T, brgval: u16, osrval: u8) -> (clock: Self)
        requires
            5 <= osrval <= 16,
        ensures
            clock.brgval == brgval,
            clock.osrval == osrval - 1,
    {
        let osrval = osrval - 1;
        Self { brgval, osrval, _clock: PhantomData, _mode: PhantomData }
    }
}

/// BRGVAL that the search tries for a baud rate and an OSRVAL
///
/// This is the IRC frequency divided by the baud rate times the oversampling
/// factor, minus one.
pub open spec fn brgval_for(baudrate: int, osrval: int) -> int {
    IOSC_FREQUENCY as int / (baudrate * (osrval + 1)) - 1
}

/// The baud rate that a BRGVAL and an OSRVAL give, in integer arithmetic
pub open spec fn resulting_baudrate(brgval: int, osrval: int) -> int {
    IOSC_FREQUENCY as int / (brgval + 1) / (osrval + 1)
}

/// How far, in whole percent, the baud rate from an OSRVAL overshoots the
/// desired one
pub open spec fn deviation_percent(baudrate: int, osrval: int) -> int {
    (resulting_baudrate(brgval_for(baudrate, osrval), osrval) - baudrate) * 100 / baudrate
}

/// Whether the OSRVAL gives a baud rate within 5% of the desired one
pub open spec fn accurate(baudrate: int, osrval: int) -> bool {
    deviation_percent(baudrate, osrval) < 5
}

/// Whether the search may pick an OSRVAL: the oversampled baud rate does not
/// exceed the IRC frequency (so the divider is at least 1), BRGVAL fits in its
/// 16 bits, and the resulting baud rate is within 5% of the desired one
pub open spec fn candidate(baudrate: int, osrval: int) -> bool {
    &&& baudrate * (osrval + 1) <= IOSC_FREQUENCY
    &&& brgval_for(baudrate, osrval) <= 0xffff
    &&& accurate(baudrate, osrval)
}

/// The baud rates for which [`Clock::new_with_baudrate`] finds parameters
///
/// Some OSRVAL in 4..=15 must be a [`candidate`]. For every other baud rate
/// there are no parameters within 5%, and the search cannot succeed.
pub open spec fn baudrate_supported(baudrate: int) -> bool {
    &&& 0 < baudrate
    &&& exists|o: int| 4 <= o <= 15 && #[trigger] candidate(baudrate, o)
}

/// Bounds on the baud rate that one OSRVAL gives
///
/// The result is never below the desired baud rate, as every division rounds
/// down, and less than twice the desired baud rate.
pub proof fn lemma_resulting_baudrate_bounds(baudrate: int, osrval: int)
    requires
        0 < baudrate,
        4 <= osrval <= 15,
        baudrate * (osrval + 1) <= IOSC_FREQUENCY,
    ensures
        brgval_for(baudrate, osrval) >= 0,
        baudrate <= resulting_baudrate(brgval_for(baudrate, osrval), osrval) < 2 * baudrate,
        resulting_baudrate(brgval_for(baudrate, osrval), osrval) <= IOSC_FREQUENCY,
        0 <= deviation_percent(baudrate, osrval) < 100,
{
    let x = IOSC_FREQUENCY as int;
    let n = osrval + 1;
    let k = baudrate * n;
    assert(k > 0) by (nonlinear_arith)
        requires
            baudrate > 0,
            n > 0,
            k == baudrate * n,
    ;
    let q = x / k;
    assert(q * k <= x < (q + 1) * k) by (nonlinear_arith)
        requires
            k > 0,
            q == x / k,
    ;
    assert(q >= 1) by (nonlinear_arith)
        requires
            k <= x,
            q * k <= x < (q + 1) * k,
            k > 0,
    ;
    let r = x / q;
    assert(r * q <= x < (r + 1) * q) by (nonlinear_arith)
        requires
            q > 0,
            r == x / q,
    ;
    assert(k <= r) by (nonlinear_arith)
        requires
            q * k <= x < (r + 1) * q,
            q > 0,
    ;
    assert(r < 2 * k) by (nonlinear_arith)
        requires
            r * q <= x < (q + 1) * k,
            q >= 1,
            k > 0,
    ;
    assert(r <= x) by (nonlinear_arith)
        requires
            r * q <= x,
            q >= 1,
            r >= 0,
    ;
    let res = r / n;
    assert(res * n <= r < (res + 1) * n) by (nonlinear_arith)
        requires
            n > 0,
            res == r / n,
    ;
    assert(baudrate <= res) by (nonlinear_arith)
        requires
            baudrate * n <= r < (res + 1) * n,
            n > 0,
    ;
    assert(res < 2 * baudrate) by (nonlinear_arith)
        requires
            res * n <= r < 2 * (baudrate * n),
            n > 0,
    ;
    assert(res <= r) by (nonlinear_arith)
        requires
            res * n <= r,
            n >= 1,
            res >= 0,
    ;
    assert(brgval_for(baudrate, osrval) + 1 == q);
    assert(resulting_baudrate(brgval_for(baudrate, osrval), osrval) == res);
    let d = res - baudrate;
    assert(0 <= d * 100 / baudrate < 100) by (nonlinear_arith)
        requires
            0 <= d < baudrate,
    ;
}

/// The parameters that [`Clock::new_with_baudrate`] picks give a baud rate
/// that is at least the desired one and less than 5% above it
///
/// Holds of every [`candidate`] OSRVAL, with its BRGVAL, which fits in the 16
/// bits of the BRG register.
pub proof fn lemma_new_with_baudrate_accuracy(baudrate: u32, brgval: u16, osrval: u8)
    requires
        0 < baudrate,
        4 <= osrval <= 15,
        candidate(baudrate as int, osrval as int),
        brgval == brgval_for(baudrate as int, osrval as int),
    ensures
        baudrate <= resulting_baudrate(brgval as int, osrval as int),
        (resulting_baudrate(brgval as int, osrval as int) - baudrate) * 100 < 5 * baudrate,
{
    let b = baudrate as int;
    let o = osrval as int;
    lemma_resulting_baudrate_bounds(b, o);
    let d = resulting_baudrate(brgval_for(b, o), o) - b;
    assert(d * 100 < 5 * b) by (nonlinear_arith)
        requires
            d >= 0,
            b > 0,
            d * 100 / b < 5,
    ;
}

/// Computes BRGVAL and the deviation in percent for one OSRVAL
///
/// The oversampled baud rate must not exceed the IRC frequency; BRGVAL is
/// returned before it is fitted into the 16 bits of the register.
fn calculate_brgval(desired_baudrate: u32, osrval: u8) -> (result: (u32, u8))
    requires
        0 < desired_baudrate,
        4 <= osrval <= 15,
        desired_baudrate * (osrval + 1) <= IOSC_FREQUENCY,
    ensures
        result.0 == brgval_for(desired_baudrate as int, osrval as int),
        result.1 == deviation_percent(desired_baudrate as int, osrval as int),
{
    proof {
        lemma_resulting_baudrate_bounds(desired_baudrate as int, osrval as int);
        assert(desired_baudrate * (osrval + 1) > 0) by (nonlinear_arith)
            requires
                desired_baudrate > 0,
                osrval >= 4,
        ;
    }
    let iosc_frequency: u32 = IOSC_FREQUENCY;

    let brgval: u32 = iosc_frequency / (desired_baudrate * (osrval + 1) as u32) - 1;
    let resulting_baudrate: u32 = iosc_frequency / (brgval + 1) / (osrval as u32 + 1);

    // This subtraction never overflows. Due to rounding, the resulting baud
    // rate is never lower than the desired one.
    let deviation_percent: u32 = (resulting_baudrate - desired_baudrate) * 100 / desired_baudrate;

    (brgval, deviation_percent as u8)
}

impl Clock<syscon::IOSC, AsyncMode> {
    /// Create a new configuration with a specified baudrate
    ///
    /// Searches for configuration values that lead to a baud rate that is
    /// within 5% accuracy of the desired baudrate. The baud rate must be one
    /// for which such parameters exist ([`baudrate_supported`]). OSRVALs for
    /// which the baud rate cannot be reached, or whose divider does not fit
    /// into BRGVAL, are skipped.
    ///
    /// Chooses the highest possibly oversampling value that will still give
    /// the desired accuracy. Please note that if the oversampling value
    /// gets too low, this can result in framing and noise errors when
    /// receiving data.
    ///
    /// Assumes the internal oscillator runs at 12 MHz.
    pub fn new_with_baudrate(baudrate: u32) -> (clock: Self)
        requires
            baudrate_supported(baudrate as int),
        ensures
            4 <= clock.osrval <= 15,
            candidate(baudrate as int, clock.osrval as int),
            forall|o: int| clock.osrval < o <= 15 ==> !#[trigger] candidate(baudrate as int, o),
            clock.brgval == brgval_for(baudrate as int, clock.osrval as int),
    {
        let (brgval, osrval) = search_parameters(baudrate);

        Self { brgval, osrval, _clock: PhantomData, _mode: PhantomData }
    }
}

/// Looks for the highest OSRVAL that gives an accuracy within 5%
fn search_parameters(baudrate: u32) -> (result: (u16, u8))
    requires
        baudrate_supported(baudrate as int),
    ensures
        4 <= result.1 <= 15,
        candidate(baudrate as int, result.1 as int),
        forall|o: int| result.1 < o <= 15 ==> !#[trigger] candidate(baudrate as int, o),
        result.0 == brgval_for(baudrate as int, result.1 as int),
{
    let mut osrval: u8 = 0xf;
    loop
        invariant
            baudrate_supported(baudrate as int),
            4 <= osrval <= 15,
            forall|o: int| osrval < o <= 15 ==> !#[trigger] candidate(baudrate as int, o),
        decreases osrval,
    {
        proof {
            assert(baudrate as u64 * (osrval as u64 + 1) <= 0xffff_ffff * 16) by (nonlinear_arith)
                requires
                    baudrate <= 0xffff_ffff,
                    osrval <= 15,
            ;
        }
        let oversampled: u64 = baudrate as u64 * (osrval as u64 + 1);
        if oversampled <= IOSC_FREQUENCY as u64 {
            let (brgval, deviation_percent) = calculate_brgval(baudrate, osrval);
            if brgval <= 0xffff && deviation_percent < 5 {
                return (brgval as u16, osrval);
            }
        }
        proof {
            assert(!candidate(baudrate as int, osrval as int));
            let w = choose|o: int| 4 <= o <= 15 && #[trigger] candidate(baudrate as int, o);
            assert(w < osrval);
        }
        osrval = osrval - 1;
    }
}

/// Implemented for USART clock sources
pub trait ClockSource: private::Sealed {
    /// The FCLKSEL value that selecting this source writes, if it writes one
    spec fn selection() -> Option<u32>;

    /// Select the clock source
    ///
    /// This method is used by the USART API internally. It should not be
    /// relevant to most users.
    ///
    /// The `selector` argument should not be required to implement this trait,
    /// but it makes sure that the caller has access to the peripheral they are
    /// selecting the clock for.
    fn select<S: PeripheralClockSelector>(selector: &S, handle: &mut syscon::Handle)
        requires
            S::register_num() < 11,
        ensures
            clock_selected(*old(handle), *final(handle), S::register_num(), Self::selection()),
    ;
}

impl private::Sealed for syscon::UARTFRG {}

impl ClockSource for syscon::UARTFRG {
    open spec fn selection() -> Option<u32> {
        None
    }

    fn select<S: PeripheralClockSelector>(_selector: &S, _handle: &mut syscon::Handle) {
        // nothing to do; selected by default
    }
}

impl private::Sealed for syscon::IOSC {}

impl ClockSource for syscon::IOSC {
    open spec fn selection() -> Option<u32> {
        Some(<syscon::IOSC as PeripheralClock>::clock_sel())
    }

    fn select<S: PeripheralClockSelector>(selector: &S, handle: &mut syscon::Handle) {
        <syscon::IOSC as PeripheralClock>::select(selector, handle);
    }
}

impl<I: frg::Instance> private::Sealed for syscon::FRG<I> {}

impl<I: frg::Instance> ClockSource for syscon::FRG<I> {
    open spec fn selection() -> Option<u32> {
        Some(I::fclksel())
    }

    fn select<S: PeripheralClockSelector>(selector: &S, handle: &mut syscon::Handle) {
        <syscon::FRG<I> as PeripheralClock>::select(selector, handle);
    }
}

} // verus!
