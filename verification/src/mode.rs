//! The console input mode as a bitmask, and the command that switches the
//! raw-mode bits of it off and on again.

use vstd::prelude::*;

verus! {

/// Control characters are handled by the system (signal generation).
pub const ENABLE_PROCESSED_INPUT: u32 = 0x0001;

/// Input is delivered line by line.
pub const ENABLE_LINE_INPUT: u32 = 0x0002;

/// Typed characters are echoed.
pub const ENABLE_ECHO_INPUT: u32 = 0x0004;

/// The mode with the bits of `mask` switched off and every other bit as in
/// `mode`.
pub open spec fn cleared(mode: u32, mask: u32) -> u32 {
    mode & !mask
}

/// The mode with the bits of `mask` switched on and every other bit as in
/// `mode`.
pub open spec fn asserted(mode: u32, mask: u32) -> u32 {
    mode | mask
}

/// Switches raw mode on and off by clearing and setting a fixed set of bits
/// of the console input mode.
///
/// The command keeps no copy of a mode: both directions work on the mode
/// that is current when they run, and touch the bits of the mask only.
#[derive(Clone, Copy, Debug, PartialEq, Eq)]
pub struct RawModeCommand {
    mask: u32,
}

impl RawModeCommand {
    /// The bits that the command clears for raw mode.
    pub closed spec fn spec_mask(&self) -> u32 {
        self.mask
    }

    /// The standard command: the one for the console's line input, echo and
    /// processed input bits.
    pub closed spec fn standard() -> RawModeCommand {
        RawModeCommand { mask: 0x0007 }
    }

    /// The mask of the standard command.
    pub proof fn standard_mask()
        ensures
            RawModeCommand::standard().mask() == 0x0007,
    {
    }

    /// The command for the console's line input, echo and processed input
    /// bits.
    pub fn new() -> (command: Self)
        ensures
            command == RawModeCommand::standard(),
            command.spec_mask() == 0x0007,
    {
        assert(ENABLE_LINE_INPUT | ENABLE_ECHO_INPUT | ENABLE_PROCESSED_INPUT == 0x0007)
            by (bit_vector);
        RawModeCommand { mask: ENABLE_LINE_INPUT | ENABLE_ECHO_INPUT | ENABLE_PROCESSED_INPUT }
    }

    /// A command for another set of raw-mode bits.
    pub fn with_mask(mask: u32) -> (command: Self)
        ensures
            command.spec_mask() == mask,
    {
        RawModeCommand { mask }
    }

    /// The bits that the command clears for raw mode.
    #[verifier::when_used_as_spec(spec_mask)]
    pub fn mask(&self) -> (mask: u32)
        ensures
            mask == self.spec_mask(),
    {
        self.mask
    }

    /// The mode to write in order to enter raw mode, given the mode that was
    /// just read.
    pub fn enable(&self, mode: u32) -> (new_mode: u32)
        ensures
            new_mode == cleared(mode, self.mask()),
    {
        mode & !self.mask
    }

    /// The mode to write in order to leave raw mode, given the mode that was
    /// just read.
    pub fn disable(&self, mode: u32) -> (new_mode: u32)
        ensures
            new_mode == asserted(mode, self.mask()),
    {
        mode | self.mask
    }
}

/// Leaving raw mode after entering it gives back the mode that was there
/// before, bit for bit, exactly when every bit of the mask was set in it.
pub proof fn round_trip_restores_mode(mode: u32, mask: u32)
    ensures
        asserted(cleared(mode, mask), mask) == mode | mask,
        asserted(cleared(mode, mask), mask) == mode <==> mode & mask == mask,
{
    assert((mode & !mask) | mask == mode | mask) by (bit_vector);
    assert((mode | mask == mode) <==> (mode & mask == mask)) by (bit_vector);
}

/// Leaving raw mode a second time changes nothing, and so does entering it a
/// second time.
pub proof fn repeated_switch_is_idle(mode: u32, mask: u32)
    ensures
        asserted(asserted(mode, mask), mask) == asserted(mode, mask),
        cleared(cleared(mode, mask), mask) == cleared(mode, mask),
{
    assert((mode | mask) | mask == mode | mask) by (bit_vector);
    assert((mode & !mask) & !mask == mode & !mask) by (bit_vector);
}

/// Both directions decide the bits of the mask and leave every other bit as
/// it was found, whoever set it.
pub proof fn switch_touches_mask_only(mode: u32, mask: u32)
    ensures
        cleared(mode, mask) & mask == 0,
        cleared(mode, mask) & !mask == mode & !mask,
        asserted(mode, mask) & mask == mask,
        asserted(mode, mask) & !mask == mode & !mask,
{
    assert((mode & !mask) & mask == 0) by (bit_vector);
    assert((mode & !mask) & !mask == mode & !mask) by (bit_vector);
    assert((mode | mask) & mask == mask) by (bit_vector);
    assert((mode | mask) & !mask == mode & !mask) by (bit_vector);
}

/// Leaving raw mode restores nothing from a snapshot: from two modes it
/// arrives at the same mode exactly when they agree outside the mask, so a
/// bit outside the mask that changed while raw mode was on stays changed.
pub proof fn restore_is_not_a_snapshot(before: u32, during: u32, mask: u32)
    ensures
        asserted(during, mask) == asserted(before, mask) <==> during & !mask == before & !mask,
{
    assert(((during | mask) == (before | mask)) <==> (during & !mask == before & !mask))
        by (bit_vector);
}

} // verus!
