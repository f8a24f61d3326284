//! Flags that are packed into one number of a command.

use vstd::prelude::*;
use crate::format::instructions::{FromNumber, NumberSpec};
use crate::vm::ctx::from_vm_ctx::FromVmCtx;
use crate::vm::ctx::VmCtx;

verus! {

/// Flags that can be used in the LAYERCTRL command.
#[derive(Clone, Copy, Debug, PartialEq, Eq, Hash, Structural)]
pub struct LayerCtrlFlags(pub i32);

/// The bit of `bits` at `position`.
pub open spec fn bit_at(bits: i32, position: i32) -> bool {
    (bits >> position) & 1 == 1
}

impl LayerCtrlFlags {
    pub open spec fn spec_easing(self) -> i32 {
        self.0 & 0x3f
    }

    pub open spec fn spec_scale_time(self) -> bool {
        bit_at(self.0, 6)
    }

    pub open spec fn spec_delta(self) -> bool {
        bit_at(self.0, 7)
    }

    pub open spec fn spec_ff_to_current(self) -> bool {
        bit_at(self.0, 8)
    }

    pub open spec fn spec_ff_to_target(self) -> bool {
        bit_at(self.0, 9)
    }

    pub open spec fn spec_prohibit_fast_forward(self) -> bool {
        bit_at(self.0, 12)
    }

    pub open spec fn spec_ignore_wait(self) -> bool {
        bit_at(self.0, 16)
    }

    /// Which easing function to use: the lowest six bits.
    #[verifier::when_used_as_spec(spec_easing)]
    pub fn easing(self) -> (easing: i32)
        ensures
            easing == self.spec_easing(),
            0 <= easing < 64,
    {
        let bits = self.0;
        assert(0 <= bits & 0x3f < 64) by (bit_vector);
        bits & 0x3f
    }

    #[verifier::when_used_as_spec(spec_scale_time)]
    pub fn scale_time(self) -> (set: bool)
        ensures
            set == self.spec_scale_time(),
    {
        (self.0 >> 6) & 1 == 1
    }

    /// If true - the target value is relative to the current value
    #[verifier::when_used_as_spec(spec_delta)]
    pub fn delta(self) -> (set: bool)
        ensures
            set == self.spec_delta(),
    {
        (self.0 >> 7) & 1 == 1
    }

    #[verifier::when_used_as_spec(spec_ff_to_current)]
    pub fn ff_to_current(self) -> (set: bool)
        ensures
            set == self.spec_ff_to_current(),
    {
        (self.0 >> 8) & 1 == 1
    }

    #[verifier::when_used_as_spec(spec_ff_to_target)]
    pub fn ff_to_target(self) -> (set: bool)
        ensures
            set == self.spec_ff_to_target(),
    {
        (self.0 >> 9) & 1 == 1
    }

    #[verifier::when_used_as_spec(spec_prohibit_fast_forward)]
    pub fn prohibit_fast_forward(self) -> (set: bool)
        ensures
            set == self.spec_prohibit_fast_forward(),
    {
        (self.0 >> 12) & 1 == 1
    }

    #[verifier::when_used_as_spec(spec_ignore_wait)]
    pub fn ignore_wait(self) -> (set: bool)
        ensures
            set == self.spec_ignore_wait(),
    {
        (self.0 >> 16) & 1 == 1
    }
}

impl FromNumber for LayerCtrlFlags {
    open spec fn is_number(number: i32) -> bool {
        true
    }

    open spec fn of_number(number: i32) -> LayerCtrlFlags {
        LayerCtrlFlags(number)
    }

    fn from_number(number: i32) -> (value: LayerCtrlFlags) {
        Self(number)
    }
}

impl FromVmCtx<NumberSpec> for LayerCtrlFlags {
    open spec fn convertible(ctx: &VmCtx, input: NumberSpec) -> bool {
        ctx.has_number(input)
    }

    open spec fn converted(ctx: &VmCtx, input: NumberSpec) -> LayerCtrlFlags {
        LayerCtrlFlags(ctx.number_value(input))
    }

    fn from_vm_ctx(ctx: &VmCtx, input: NumberSpec) -> (value: LayerCtrlFlags) {
        Self(ctx.get_number(input))
    }
}

/// Flags that can be used in the MASKLOAD command.
#[derive(PartialEq, Eq, Hash, Debug, Clone, Copy, Structural)]
pub struct MaskFlags {
    bits: i32,
}

impl MaskFlags {
    pub const FLIP_X: i32 = 0x0001;

    pub const FLIP_Y: i32 = 0x0002;

    pub const UNK_4: i32 = 0x0004;

    pub const SCALE: i32 = 0x0010;

    /// Whether every bit of `bits` is a flag.
    pub open spec fn known(bits: i32) -> bool {
        bits & !0x17i32 == 0
    }

    #[verifier::type_invariant]
    spec fn only_known_bits(self) -> bool {
        MaskFlags::known(self.bits)
    }

    pub closed spec fn spec_bits(self) -> i32 {
        self.bits
    }

    /// The flags that are set in `bits`, or nothing where `bits` has a bit
    /// that is no flag.
    pub fn from_bits(bits: i32) -> (flags: Option<MaskFlags>)
        ensures
            flags is Some <==> MaskFlags::known(bits),
            flags matches Some(flags) ==> flags.spec_bits() == bits,
    {
        if bits & !0x17i32 == 0 {
            Some(MaskFlags { bits })
        } else {
            None
        }
    }

    #[verifier::when_used_as_spec(spec_bits)]
    pub fn bits(self) -> (bits: i32)
        ensures
            bits == self.spec_bits(),
            MaskFlags::known(bits),
    {
        proof {
            use_type_invariant(self);
        }
        self.bits
    }

    /// Whether every flag of `flag` is set.
    pub fn contains(self, flag: i32) -> (set: bool)
        ensures
            set == (self.spec_bits() & flag == flag),
    {
        self.bits & flag == flag
    }
}

impl FromNumber for MaskFlags {
    open spec fn is_number(number: i32) -> bool {
        MaskFlags::known(number)
    }

    closed spec fn of_number(number: i32) -> MaskFlags {
        MaskFlags { bits: number }
    }

    fn from_number(number: i32) -> (value: MaskFlags) {
        match MaskFlags::from_bits(number) {
            Some(value) => value,
            None => vstd::pervasive::unreached(),
        }
    }
}

/// Represents a status of a playing audio that can be awaited on.
///
/// Used in the BGMWAIT, SEWAIT and VOICEWAIT commands.
#[derive(PartialEq, Eq, Hash, Debug, Clone, Copy, Structural)]
pub struct AudioWaitStatus {
    bits: i32,
}

impl AudioWaitStatus {
    pub const PLAYING: i32 = 1;

    pub const STOPPED: i32 = 2;

    pub const VOLUME_TWEENER_IDLE: i32 = 4;

    pub const PANNING_TWEENER_IDLE: i32 = 8;

    pub const PLAY_SPEED_TWEENER_IDLE: i32 = 16;

    /// Whether every bit of `bits` is a flag.
    pub open spec fn known(bits: i32) -> bool {
        0 <= bits < 32
    }

    #[verifier::type_invariant]
    spec fn only_known_bits(self) -> bool {
        AudioWaitStatus::known(self.bits)
    }

    pub closed spec fn spec_bits(self) -> i32 {
        self.bits
    }

    /// No flag is set.
    pub fn empty() -> (flags: AudioWaitStatus)
        ensures
            flags.spec_bits() == 0,
    {
        AudioWaitStatus { bits: 0 }
    }

    /// The flags that are set in `bits`, or nothing where `bits` has a bit
    /// that is no flag.
    pub fn from_bits(bits: i32) -> (flags: Option<AudioWaitStatus>)
        ensures
            flags is Some <==> AudioWaitStatus::known(bits),
            flags matches Some(flags) ==> flags.spec_bits() == bits,
    {
        if 0 <= bits && bits < 32 {
            Some(AudioWaitStatus { bits })
        } else {
            None
        }
    }

    /// The flags that are set in `bits`; bits that are no flags are dropped.
    pub fn from_bits_truncate(bits: i32) -> (flags: AudioWaitStatus)
        ensures
            flags.spec_bits() == bits & 0x1f,
    {
        assert(0 <= bits & 0x1f < 32) by (bit_vector);
        AudioWaitStatus { bits: bits & 0x1f }
    }

    #[verifier::when_used_as_spec(spec_bits)]
    pub fn bits(self) -> (bits: i32)
        ensures
            bits == self.spec_bits(),
            AudioWaitStatus::known(bits),
    {
        proof {
            use_type_invariant(self);
        }
        self.bits
    }

    /// Whether every flag of `flag` is set.
    pub fn contains(self, flag: i32) -> (set: bool)
        ensures
            set == (self.spec_bits() & flag == flag),
    {
        self.bits & flag == flag
    }
}

impl FromNumber for AudioWaitStatus {
    open spec fn is_number(number: i32) -> bool {
        AudioWaitStatus::known(number)
    }

    closed spec fn of_number(number: i32) -> AudioWaitStatus {
        AudioWaitStatus { bits: number }
    }

    fn from_number(number: i32) -> (value: AudioWaitStatus) {
        match AudioWaitStatus::from_bits(number) {
            Some(value) => value,
            None => vstd::pervasive::unreached(),
        }
    }
}

} // verus!
