use core::marker::PhantomData;

use vstd::prelude::*;

use crate::{init_state, pac, syscon};

verus! {

/// The value of an 8-bit field of a PINASSIGN register after `value` has been
/// written to the field with index `field` (0 for bits 7:0, up to 3 for bits
/// 31:24)
pub open spec fn with_field(w: u32, field: u32, value: u8) -> u32 {
    (w & !(0xffu32 << field_shift(field))) | ((value as u32) << field_shift(field))
}

/// The position of the lowest bit of a PINASSIGN field
pub open spec fn field_shift(field: u32) -> u32 {
    (field * 8) as u32
}

/// The 8-bit field with index `field` of a PINASSIGN register value
pub open spec fn field_of(w: u32, field: u32) -> u32 {
    (w >> field_shift(field)) & 0xff
}

/// Whether `after` holds `before` with `value` written to field `field` of
/// PINASSIGN register `reg`, and nothing else changed
pub open spec fn pinassign_written(
    before: pac::SWM0,
    after: pac::SWM0,
    reg: int,
    field: u32,
    value: u8,
) -> bool {
    &&& after.pinassign@ == before.pinassign@.update(reg, with_field(before.pinassign[reg], field, value))
    &&& after.pinenable0 == before.pinenable0
}

/// Whether `after` holds `before` with the bits of `mask` in PINENABLE0 set
/// (`set`) or cleared (`!set`), and nothing else changed
pub open spec fn pinenable_written(before: pac::SWM0, after: pac::SWM0, mask: u32, set: bool) -> bool {
    &&& after.pinassign@ == before.pinassign@
    &&& after.pinenable0 == if set {
        before.pinenable0 | mask
    } else {
        before.pinenable0 & !mask
    }
}

/// Handle to the SWM peripheral
///
/// Can be used to enable and disable the switch matrix. It is also required by
/// other parts of the HAL API to synchronize access the the underlying
/// registers, wherever this is required.
pub struct Handle<State = init_state::Enabled> {
    /// The raw peripheral
    pub swm: pac::SWM0,
    /// Whether the switch matrix is enabled
    pub _state: PhantomData<State>,
}

impl<STATE> Handle<STATE> {
    /// Wrap the raw peripheral
    pub(crate) fn new(swm: pac::SWM0) -> (handle: Self)
        ensures
            handle.swm == swm,
    {
        Handle { swm, _state: PhantomData }
    }
}

impl Handle<init_state::Enabled> {
    /// Write `value` to field `field` of PINASSIGN register `reg`
    pub(crate) fn write_pinassign(&mut self, reg: usize, field: u32, value: u8)
        requires
            reg < 12,
            field < 4,
        ensures
            pinassign_written(old(self).swm, final(self).swm, reg as int, field, value),
    {
        let shift: u32 = field * 8;
        let w: u32 = self.swm.pinassign[reg];
        self.swm.pinassign[reg] = (w & !(0xffu32 << shift)) | ((value as u32) << shift);
    }

    /// Set (`set`) or clear (`!set`) the bits of `mask` in PINENABLE0
    pub(crate) fn write_pinenable(&mut self, mask: u32, set: bool)
        ensures
            pinenable_written(old(self).swm, final(self).swm, mask, set),
    {
        if set {
            self.swm.pinenable0 = self.swm.pinenable0 | mask;
        } else {
            self.swm.pinenable0 = self.swm.pinenable0 & !mask;
        }
    }

    /// Disable the switch matrix
    ///
    /// The switch matrix retains it's configuration while disabled, but
    /// doesn't allow modifications
    ///
    /// This method is only available, if `swm::Handle` is in the [`Enabled`]
    /// state. Code that attempts to call this method when the peripheral is
    /// already disabled will not compile.
    ///
    /// [`Enabled`]: ../init_state/struct.Enabled.html
    pub fn disable(self, syscon: &mut syscon::Handle) -> (handle: Handle<init_state::Disabled>)
        ensures
            handle.swm == self.swm,
            final(syscon).sysahbclkctrl == old(syscon).sysahbclkctrl & !0x80u32,
            final(syscon).pdruncfg == old(syscon).pdruncfg,
            final(syscon).presetctrl0 == old(syscon).presetctrl0,
            final(syscon).starterp1 == old(syscon).starterp1,
            final(syscon).pintsel == old(syscon).pintsel,
            final(syscon).fclksel == old(syscon).fclksel,
    {
        syscon.disable_clock(&self.swm);
        Handle { swm: self.swm, _state: PhantomData }
    }
}

impl Handle<init_state::Disabled> {
    /// Enable the switch matrix
    ///
    /// This method is only available, if `swm::Handle` is in the [`Disabled`]
    /// state. Code that attempts to call this method when the peripheral is
    /// already enabled will not compile.
    ///
    /// [`Disabled`]: ../init_state/struct.Disabled.html
    pub fn enable(self, syscon: &mut syscon::Handle) -> (handle: Handle<init_state::Enabled>)
        ensures
            handle.swm == self.swm,
            final(syscon).sysahbclkctrl == old(syscon).sysahbclkctrl | 0x80u32,
            final(syscon).pdruncfg == old(syscon).pdruncfg,
            final(syscon).presetctrl0 == old(syscon).presetctrl0,
            final(syscon).starterp1 == old(syscon).starterp1,
            final(syscon).pintsel == old(syscon).pintsel,
            final(syscon).fclksel == old(syscon).fclksel,
    {
        syscon.enable_clock(&self.swm);
        Handle { swm: self.swm, _state: PhantomData }
    }
}

/// Writing a PINASSIGN field leaves the other three fields unchanged, and the
/// field reads back the written value
pub proof fn lemma_with_field(w: u32, field: u32, value: u8, other: u32)
    requires
        field < 4,
        other < 4,
        other != field,
    ensures
        field_of(with_field(w, field, value), field) == value as u32,
        field_of(with_field(w, field, value), other) == field_of(w, other),
{
    let s = field_shift(field);
    let t = field_shift(other);
    let v = value as u32;
    assert(s == 0 || s == 8 || s == 16 || s == 24);
    assert(t == 0 || t == 8 || t == 16 || t == 24);
    assert(s != t);
    assert(((((w & !(0xffu32 << s)) | (v << s)) >> s) & 0xff) == v && ((((w & !(0xffu32 << s)) | (
    v << s)) >> t) & 0xff) == (w >> t) & 0xff) by (bit_vector)
        requires
            s == 0 || s == 8 || s == 16 || s == 24,
            t == 0 || t == 8 || t == 16 || t == 24,
            s != t,
            v < 256,
    ;
}

/// Writing a PINASSIGN field twice is the same as writing the second value
/// only; in particular, unassigning a function (writing 0xff) after
/// assigning it leaves the register as if it had only been unassigned
pub proof fn lemma_with_field_overwrite(w: u32, field: u32, first: u8, second: u8)
    requires
        field < 4,
    ensures
        with_field(with_field(w, field, first), field, second) == with_field(w, field, second),
{
    let s = field_shift(field);
    assert(s == 0 || s == 8 || s == 16 || s == 24);
    let a = first as u32;
    let b = second as u32;
    assert((((w & !(0xffu32 << s)) | (a << s)) & !(0xffu32 << s)) | (b << s) == (w & !(0xffu32
        << s)) | (b << s)) by (bit_vector)
        requires
            s == 0 || s == 8 || s == 16 || s == 24,
            a < 256,
            b < 256,
    ;
}

/// Assigning a fixed function (clearing its PINENABLE0 bit) and unassigning
/// it again (setting the bit) leaves PINENABLE0 with that bit set and all
/// other bits unchanged
pub proof fn lemma_pinenable_roundtrip(w: u32, mask: u32)
    ensures
        (w & !mask) | mask == w | mask,
        ((w | mask) & !mask) == w & !mask,
{
    assert((w & !mask) | mask == w | mask) by (bit_vector);
    assert(((w | mask) & !mask) == w & !mask) by (bit_vector);
}

/// Assigning a movable function to a pin and unassigning it again leaves the
/// switch matrix as if the function had only been unassigned: its PINASSIGN
/// field holds 0xff and nothing else changed. While assigned, the field holds
/// the pin's number.
pub proof fn lemma_movable_assign_then_unassign(
    before: pac::SWM0,
    mid: pac::SWM0,
    after: pac::SWM0,
    reg: int,
    field: u32,
    pin: u8,
)
    requires
        0 <= reg < 12,
        field < 4,
        pinassign_written(before, mid, reg, field, pin),
        pinassign_written(mid, after, reg, field, 0xff),
    ensures
        pinassign_written(before, after, reg, field, 0xff),
        field_of(mid.pinassign[reg], field) == pin as u32,
        field_of(after.pinassign[reg], field) == 0xff,
{
    lemma_with_field_overwrite(before.pinassign[reg], field, pin, 0xff);
    let other: u32 = if field == 0 { 1 } else { 0 };
    lemma_with_field(before.pinassign[reg], field, pin, other);
    lemma_with_field(mid.pinassign[reg], field, 0xff, other);
    assert(after.pinassign@ =~= before.pinassign@.update(reg, with_field(before.pinassign[reg], field, 0xff)));
}

/// Assigning a fixed function and unassigning it again leaves its PINENABLE0
/// bit set (the function disabled) and everything else as it was
pub proof fn lemma_fixed_assign_then_unassign(
    before: pac::SWM0,
    mid: pac::SWM0,
    after: pac::SWM0,
    mask: u32,
)
    requires
        pinenable_written(before, mid, mask, false),
        pinenable_written(mid, after, mask, true),
    ensures
        pinenable_written(before, after, mask, true),
{
    lemma_pinenable_roundtrip(before.pinenable0, mask);
}

} // verus!
