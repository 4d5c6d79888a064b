//! The analog-to-digital converter: calibration, resolution, alignment,
//! clock and power modes, and sampling times.
//!
//! [`Adc`] is the handle of the converter. It holds the words of the
//! converter's registers; every setter replaces the bits of one field and
//! leaves every other bit of the register as it was.

use crate::bits::{
    bit, field, lemma_bit_of_with_bit, lemma_field_of_with_field, lemma_low_masks, read_bit,
    with_bit, with_field, write_bit, write_field,
};
use crate::codec::{decoded, lemma_decoded, lemma_decoded_is, RegisterField};
use crate::guard::{Claim, OwnershipGuard, PeripheralKind};
use crate::rcc::{APB2Peripheral, Peripheral, Rcc};
use vstd::prelude::*;
use vstd::std_specs::convert::FromSpecImpl;

verus! {

/// Bit of the control register that starts a calibration and reads as set
/// until the calibration is complete.
pub const CR_ADCAL: u32 = 31;

/// The bits of the control register that give a command when a one is
/// written to them: enable, disable, start, stop and calibrate.
pub const CR_COMMANDS: u32 = 0x8000_0017;

/// Offset of the two-bit resolution field in configuration register 1.
pub const CFGR1_RES: u32 = 3;

/// Bit of configuration register 1 that selects left alignment.
pub const CFGR1_ALIGN: u32 = 5;

/// Offset of the two-bit low-power field in configuration register 1: the
/// wait bit, then the auto-off bit.
pub const CFGR1_LOW_POWER: u32 = 14;

/// Offset of the two-bit clock mode field in configuration register 2.
pub const CFGR2_CKMODE: u32 = 30;

/// Offset, in the sampling time register, of the bit that selects the
/// sampling time group of channel 0; the bit of channel `n` is `n` above it.
pub const SMPR_SMPSEL: u32 = 8;

/// Bits in the resolution, low-power and clock mode fields.
pub const MODE_WIDTH: u32 = 2;

/// Bits in each of the two sampling time fields.
pub const SAMPLING_TIME_WIDTH: u32 = 3;

/// ADC external trigger mode
#[derive(Clone, Copy, Debug, PartialEq, Eq, Structural)]
pub enum ExternalTriggerMode {
    Disabled,
    RisingEdge,
    FallingEdge,
    RisingAndFallingEdge,
}

impl RegisterField for ExternalTriggerMode {
    open spec fn code(self) -> u8 {
        match self {
            ExternalTriggerMode::Disabled => 0,
            ExternalTriggerMode::RisingEdge => 1,
            ExternalTriggerMode::FallingEdge => 2,
            ExternalTriggerMode::RisingAndFallingEdge => 3,
        }
    }

    open spec fn declared(code: u8) -> bool {
        code <= 3
    }

    open spec fn width() -> u32 {
        2
    }

    proof fn lemma_code_injective(a: Self, b: Self) {
    }

    proof fn lemma_declared(code: u8) {
        assert(ExternalTriggerMode::Disabled.code() == 0);
        assert(ExternalTriggerMode::RisingEdge.code() == 1);
        assert(ExternalTriggerMode::FallingEdge.code() == 2);
        assert(ExternalTriggerMode::RisingAndFallingEdge.code() == 3);
    }

    proof fn lemma_code_fits(v: Self) {
        lemma_low_masks();
    }
}

impl From<ExternalTriggerMode> for u8 {
    fn from(value: ExternalTriggerMode) -> (code: u8)
        ensures
            code == value.code(),
    {
        match value {
            ExternalTriggerMode::Disabled => 0,
            ExternalTriggerMode::RisingEdge => 1,
            ExternalTriggerMode::FallingEdge => 2,
            ExternalTriggerMode::RisingAndFallingEdge => 3,
        }
    }
}

impl FromSpecImpl<ExternalTriggerMode> for u8 {
    open spec fn obeys_from_spec() -> bool {
        true
    }

    open spec fn from_spec(v: ExternalTriggerMode) -> u8 {
        v.code()
    }
}

impl ExternalTriggerMode {
    /// Decodes an external trigger mode; nothing for a code above 3.
    pub fn from_u8(value: u8) -> (variant: Option<Self>)
        ensures
            variant == decoded::<Self>(value),
            variant is Some <==> Self::declared(value),
            variant matches Some(v) ==> v.code() == value,
    {
        let variant = match value {
            0 => Some(ExternalTriggerMode::Disabled),
            1 => Some(ExternalTriggerMode::RisingEdge),
            2 => Some(ExternalTriggerMode::FallingEdge),
            3 => Some(ExternalTriggerMode::RisingAndFallingEdge),
            _ => None,
        };
        proof {
            lemma_decoded::<Self>(value);
            if let Some(v) = variant {
                lemma_decoded_is(value, v);
            }
        }
        variant
    }
}

/// ADC external trigger source
#[derive(Clone, Copy, Debug, PartialEq, Eq, Structural)]
pub enum ExternalTriggerSource {
    TRG0,
    TRG1,
    TRG2,
    TRG3,
    TRG4,
    TRG5,
    TRG6,
    TRG7,
}

impl RegisterField for ExternalTriggerSource {
    open spec fn code(self) -> u8 {
        match self {
            ExternalTriggerSource::TRG0 => 0,
            ExternalTriggerSource::TRG1 => 1,
            ExternalTriggerSource::TRG2 => 2,
            ExternalTriggerSource::TRG3 => 3,
            ExternalTriggerSource::TRG4 => 4,
            ExternalTriggerSource::TRG5 => 5,
            ExternalTriggerSource::TRG6 => 6,
            ExternalTriggerSource::TRG7 => 7,
        }
    }

    open spec fn declared(code: u8) -> bool {
        code <= 7
    }

    open spec fn width() -> u32 {
        3
    }

    proof fn lemma_code_injective(a: Self, b: Self) {
    }

    proof fn lemma_declared(code: u8) {
        assert(ExternalTriggerSource::TRG0.code() == 0);
        assert(ExternalTriggerSource::TRG1.code() == 1);
        assert(ExternalTriggerSource::TRG2.code() == 2);
        assert(ExternalTriggerSource::TRG3.code() == 3);
        assert(ExternalTriggerSource::TRG4.code() == 4);
        assert(ExternalTriggerSource::TRG5.code() == 5);
        assert(ExternalTriggerSource::TRG6.code() == 6);
        assert(ExternalTriggerSource::TRG7.code() == 7);
    }

    proof fn lemma_code_fits(v: Self) {
        lemma_low_masks();
    }
}

impl From<ExternalTriggerSource> for u8 {
    fn from(value: ExternalTriggerSource) -> (code: u8)
        ensures
            code == value.code(),
    {
        match value {
            ExternalTriggerSource::TRG0 => 0,
            ExternalTriggerSource::TRG1 => 1,
            ExternalTriggerSource::TRG2 => 2,
            ExternalTriggerSource::TRG3 => 3,
            ExternalTriggerSource::TRG4 => 4,
            ExternalTriggerSource::TRG5 => 5,
            ExternalTriggerSource::TRG6 => 6,
            ExternalTriggerSource::TRG7 => 7,
        }
    }
}

impl FromSpecImpl<ExternalTriggerSource> for u8 {
    open spec fn obeys_from_spec() -> bool {
        true
    }

    open spec fn from_spec(v: ExternalTriggerSource) -> u8 {
        v.code()
    }
}

impl ExternalTriggerSource {
    /// Decodes an external trigger source; nothing for a code above 7.
    pub fn from_u8(value: u8) -> (variant: Option<Self>)
        ensures
            variant == decoded::<Self>(value),
            variant is Some <==> Self::declared(value),
            variant matches Some(v) ==> v.code() == value,
    {
        let variant = match value {
            0 => Some(ExternalTriggerSource::TRG0),
            1 => Some(ExternalTriggerSource::TRG1),
            2 => Some(ExternalTriggerSource::TRG2),
            3 => Some(ExternalTriggerSource::TRG3),
            4 => Some(ExternalTriggerSource::TRG4),
            5 => Some(ExternalTriggerSource::TRG5),
            6 => Some(ExternalTriggerSource::TRG6),
            7 => Some(ExternalTriggerSource::TRG7),
            _ => None,
        };
        proof {
            lemma_decoded::<Self>(value);
            if let Some(v) = variant {
                lemma_decoded_is(value, v);
            }
        }
        variant
    }
}

/// ADC clock mode
#[derive(Clone, Copy, Debug, PartialEq, Eq, Structural)]
pub enum ClockMode {
    /// Asynchronous clock mode.
    Async,
    /// Synchronous clock mode.
    SyncPclkDiv1,
    /// Synchronous clock mode.
    SyncPclkDiv2,
    /// Synchronous clock mode.
    SyncPclkDiv4,
}

impl RegisterField for ClockMode {
    open spec fn code(self) -> u8 {
        match self {
            ClockMode::Async => 0,
            ClockMode::SyncPclkDiv1 => 3,
            ClockMode::SyncPclkDiv2 => 1,
            ClockMode::SyncPclkDiv4 => 2,
        }
    }

    open spec fn declared(code: u8) -> bool {
        code <= 3
    }

    open spec fn width() -> u32 {
        2
    }

    proof fn lemma_code_injective(a: Self, b: Self) {
    }

    proof fn lemma_declared(code: u8) {
        assert(ClockMode::Async.code() == 0);
        assert(ClockMode::SyncPclkDiv1.code() == 3);
        assert(ClockMode::SyncPclkDiv2.code() == 1);
        assert(ClockMode::SyncPclkDiv4.code() == 2);
    }

    proof fn lemma_code_fits(v: Self) {
        lemma_low_masks();
    }
}

impl From<ClockMode> for u8 {
    fn from(value: ClockMode) -> (code: u8)
        ensures
            code == value.code(),
    {
        match value {
            ClockMode::Async => 0,
            ClockMode::SyncPclkDiv1 => 3,
            ClockMode::SyncPclkDiv2 => 1,
            ClockMode::SyncPclkDiv4 => 2,
        }
    }
}

impl FromSpecImpl<ClockMode> for u8 {
    open spec fn obeys_from_spec() -> bool {
        true
    }

    open spec fn from_spec(v: ClockMode) -> u8 {
        v.code()
    }
}

impl ClockMode {
    /// Decodes a clock mode; nothing for a code above 3.
    pub fn from_u8(value: u8) -> (variant: Option<Self>)
        ensures
            variant == decoded::<Self>(value),
            variant is Some <==> Self::declared(value),
            variant matches Some(v) ==> v.code() == value,
    {
        let variant = match value {
            0 => Some(ClockMode::Async),
            3 => Some(ClockMode::SyncPclkDiv1),
            1 => Some(ClockMode::SyncPclkDiv2),
            2 => Some(ClockMode::SyncPclkDiv4),
            _ => None,
        };
        proof {
            lemma_decoded::<Self>(value);
            if let Some(v) = variant {
                lemma_decoded_is(value, v);
            }
        }
        variant
    }
}

/// ADC data resolution
#[derive(Clone, Copy, Debug, PartialEq, Eq, Structural)]
pub enum Resolution {
    /// 12 bits
    Bits12,
    /// 10 bits
    Bits10,
    /// 8 bits
    Bits8,
    /// 6 bits
    Bits6,
}

impl RegisterField for Resolution {
    open spec fn code(self) -> u8 {
        match self {
            Resolution::Bits12 => 0,
            Resolution::Bits10 => 1,
            Resolution::Bits8 => 2,
            Resolution::Bits6 => 3,
        }
    }

    open spec fn declared(code: u8) -> bool {
        code <= 3
    }

    open spec fn width() -> u32 {
        2
    }

    proof fn lemma_code_injective(a: Self, b: Self) {
    }

    proof fn lemma_declared(code: u8) {
        assert(Resolution::Bits12.code() == 0);
        assert(Resolution::Bits10.code() == 1);
        assert(Resolution::Bits8.code() == 2);
        assert(Resolution::Bits6.code() == 3);
    }

    proof fn lemma_code_fits(v: Self) {
        lemma_low_masks();
    }
}

impl From<Resolution> for u8 {
    fn from(value: Resolution) -> (code: u8)
        ensures
            code == value.code(),
    {
        match value {
            Resolution::Bits12 => 0,
            Resolution::Bits10 => 1,
            Resolution::Bits8 => 2,
            Resolution::Bits6 => 3,
        }
    }
}

impl FromSpecImpl<Resolution> for u8 {
    open spec fn obeys_from_spec() -> bool {
        true
    }

    open spec fn from_spec(v: Resolution) -> u8 {
        v.code()
    }
}

impl Resolution {
    /// Decodes a resolution; nothing for a code above 3.
    pub fn from_u8(value: u8) -> (variant: Option<Self>)
        ensures
            variant == decoded::<Self>(value),
            variant is Some <==> Self::declared(value),
            variant matches Some(v) ==> v.code() == value,
    {
        let variant = match value {
            0 => Some(Resolution::Bits12),
            1 => Some(Resolution::Bits10),
            2 => Some(Resolution::Bits8),
            3 => Some(Resolution::Bits6),
            _ => None,
        };
        proof {
            lemma_decoded::<Self>(value);
            if let Some(v) = variant {
                lemma_decoded_is(value, v);
            }
        }
        variant
    }
}

/// ADC data alignment
#[derive(Clone, Copy, Debug, PartialEq, Eq, Structural)]
pub enum DataAlignment {
    /// Right alignment
    Right,
    /// Left alignment
    Left,
}

impl RegisterField for DataAlignment {
    open spec fn code(self) -> u8 {
        match self {
            DataAlignment::Right => 0,
            DataAlignment::Left => 1,
        }
    }

    open spec fn declared(code: u8) -> bool {
        code <= 1
    }

    open spec fn width() -> u32 {
        1
    }

    proof fn lemma_code_injective(a: Self, b: Self) {
    }

    proof fn lemma_declared(code: u8) {
        assert(DataAlignment::Right.code() == 0);
        assert(DataAlignment::Left.code() == 1);
    }

    proof fn lemma_code_fits(v: Self) {
        lemma_low_masks();
    }
}

impl From<DataAlignment> for bool {
    fn from(value: DataAlignment) -> (left: bool)
        ensures
            left == (value.code() == 1),
    {
        match value {
            DataAlignment::Right => false,
            DataAlignment::Left => true,
        }
    }
}

impl FromSpecImpl<DataAlignment> for bool {
    open spec fn obeys_from_spec() -> bool {
        true
    }

    open spec fn from_spec(v: DataAlignment) -> bool {
        v.code() == 1
    }
}

impl DataAlignment {
    /// Decodes a data alignment; nothing for a code above 1.
    pub fn from_u8(value: u8) -> (variant: Option<Self>)
        ensures
            variant == decoded::<Self>(value),
            variant is Some <==> Self::declared(value),
            variant matches Some(v) ==> v.code() == value,
    {
        let variant = match value {
            0 => Some(DataAlignment::Right),
            1 => Some(DataAlignment::Left),
            _ => None,
        };
        proof {
            lemma_decoded::<Self>(value);
            if let Some(v) = variant {
                lemma_decoded_is(value, v);
            }
        }
        variant
    }
}

/// ADC low power mode
#[derive(Clone, Copy, Debug, PartialEq, Eq, Structural)]
pub enum LowPowerMode {
    /// No low power mode activated
    Off,
    /// Auto wait mode activated
    AutoWait,
    /// Auto power off mode activated
    AutoPowerOff,
    /// Auto wait and power off modes activated
    AutoWaitAndPowerOff,
}

impl RegisterField for LowPowerMode {
    open spec fn code(self) -> u8 {
        match self {
            LowPowerMode::Off => 0,
            LowPowerMode::AutoWait => 1,
            LowPowerMode::AutoPowerOff => 2,
            LowPowerMode::AutoWaitAndPowerOff => 3,
        }
    }

    open spec fn declared(code: u8) -> bool {
        code <= 3
    }

    open spec fn width() -> u32 {
        2
    }

    proof fn lemma_code_injective(a: Self, b: Self) {
    }

    proof fn lemma_declared(code: u8) {
        assert(LowPowerMode::Off.code() == 0);
        assert(LowPowerMode::AutoWait.code() == 1);
        assert(LowPowerMode::AutoPowerOff.code() == 2);
        assert(LowPowerMode::AutoWaitAndPowerOff.code() == 3);
    }

    proof fn lemma_code_fits(v: Self) {
        lemma_low_masks();
    }
}

impl From<LowPowerMode> for u8 {
    fn from(value: LowPowerMode) -> (code: u8)
        ensures
            code == value.code(),
    {
        match value {
            LowPowerMode::Off => 0,
            LowPowerMode::AutoWait => 1,
            LowPowerMode::AutoPowerOff => 2,
            LowPowerMode::AutoWaitAndPowerOff => 3,
        }
    }
}

impl FromSpecImpl<LowPowerMode> for u8 {
    open spec fn obeys_from_spec() -> bool {
        true
    }

    open spec fn from_spec(v: LowPowerMode) -> u8 {
        v.code()
    }
}

impl LowPowerMode {
    /// Decodes a low power mode; nothing for a code above 3.
    pub fn from_u8(value: u8) -> (variant: Option<Self>)
        ensures
            variant == decoded::<Self>(value),
            variant is Some <==> Self::declared(value),
            variant matches Some(v) ==> v.code() == value,
    {
        let variant = match value {
            0 => Some(LowPowerMode::Off),
            1 => Some(LowPowerMode::AutoWait),
            2 => Some(LowPowerMode::AutoPowerOff),
            3 => Some(LowPowerMode::AutoWaitAndPowerOff),
            _ => None,
        };
        proof {
            lemma_decoded::<Self>(value);
            if let Some(v) = variant {
                lemma_decoded_is(value, v);
            }
        }
        variant
    }
}

/// ADC sampling time common group
#[derive(Clone, Copy, Debug, PartialEq, Eq, Structural)]
pub enum SamplingTimeCommonGroup {
    /// Sampling time common group 1
    Common1,
    /// Sampling time common group 2
    Common2,
}

impl RegisterField for SamplingTimeCommonGroup {
    open spec fn code(self) -> u8 {
        match self {
            SamplingTimeCommonGroup::Common1 => 0,
            SamplingTimeCommonGroup::Common2 => 4,
        }
    }

    open spec fn declared(code: u8) -> bool {
        code == 0 || code == 4
    }

    open spec fn width() -> u32 {
        3
    }

    proof fn lemma_code_injective(a: Self, b: Self) {
    }

    proof fn lemma_declared(code: u8) {
        assert(SamplingTimeCommonGroup::Common1.code() == 0);
        assert(SamplingTimeCommonGroup::Common2.code() == 4);
    }

    proof fn lemma_code_fits(v: Self) {
        lemma_low_masks();
    }
}

impl From<SamplingTimeCommonGroup> for u8 {
    fn from(value: SamplingTimeCommonGroup) -> (code: u8)
        ensures
            code == value.code(),
    {
        match value {
            SamplingTimeCommonGroup::Common1 => 0,
            SamplingTimeCommonGroup::Common2 => 4,
        }
    }
}

impl FromSpecImpl<SamplingTimeCommonGroup> for u8 {
    open spec fn obeys_from_spec() -> bool {
        true
    }

    open spec fn from_spec(v: SamplingTimeCommonGroup) -> u8 {
        v.code()
    }
}

impl SamplingTimeCommonGroup {
    /// Whether this is the second group: the value of a channel's group
    /// selection bit.
    pub open spec fn selects_second(self) -> bool {
        self == SamplingTimeCommonGroup::Common2
    }
}

impl From<SamplingTimeCommonGroup> for bool {
    fn from(value: SamplingTimeCommonGroup) -> (second: bool)
        ensures
            second == value.selects_second(),
    {
        match value {
            SamplingTimeCommonGroup::Common1 => false,
            SamplingTimeCommonGroup::Common2 => true,
        }
    }
}

impl FromSpecImpl<SamplingTimeCommonGroup> for bool {
    open spec fn obeys_from_spec() -> bool {
        true
    }

    open spec fn from_spec(v: SamplingTimeCommonGroup) -> bool {
        v.selects_second()
    }
}

impl SamplingTimeCommonGroup {
    /// Decodes a sampling time group from the offset of its field; nothing
    /// for a number other than 0 and 4.
    pub fn from_u8(value: u8) -> (variant: Option<Self>)
        ensures
            variant == decoded::<Self>(value),
            variant is Some <==> Self::declared(value),
            variant matches Some(v) ==> v.code() == value,
    {
        let variant = match value {
            0 => Some(SamplingTimeCommonGroup::Common1),
            4 => Some(SamplingTimeCommonGroup::Common2),
            _ => None,
        };
        proof {
            lemma_decoded::<Self>(value);
            if let Some(v) = variant {
                lemma_decoded_is(value, v);
            }
        }
        variant
    }
}

/// ADC sampling time
#[derive(Clone, Copy, Debug, PartialEq, Eq, Structural)]
pub enum SamplingTime {
    /// 1.5 cycles sampling time
    T1_5,
    /// 3.5 cycles sampling time
    T3_5,
    /// 7.5 cycles sampling time
    T7_5,
    /// 12.5 cycles sampling time
    T12_5,
    /// 19.5 cycles sampling time
    T19_5,
    /// 39.5 cycles sampling time
    T39_5,
    /// 79.5 cycles sampling time
    T79_5,
    /// 160.5 cycles sampling time
    T160_5,
}

impl RegisterField for SamplingTime {
    open spec fn code(self) -> u8 {
        match self {
            SamplingTime::T1_5 => 0,
            SamplingTime::T3_5 => 1,
            SamplingTime::T7_5 => 2,
            SamplingTime::T12_5 => 3,
            SamplingTime::T19_5 => 4,
            SamplingTime::T39_5 => 5,
            SamplingTime::T79_5 => 6,
            SamplingTime::T160_5 => 7,
        }
    }

    open spec fn declared(code: u8) -> bool {
        code <= 7
    }

    open spec fn width() -> u32 {
        3
    }

    proof fn lemma_code_injective(a: Self, b: Self) {
    }

    proof fn lemma_declared(code: u8) {
        assert(SamplingTime::T1_5.code() == 0);
        assert(SamplingTime::T3_5.code() == 1);
        assert(SamplingTime::T7_5.code() == 2);
        assert(SamplingTime::T12_5.code() == 3);
        assert(SamplingTime::T19_5.code() == 4);
        assert(SamplingTime::T39_5.code() == 5);
        assert(SamplingTime::T79_5.code() == 6);
        assert(SamplingTime::T160_5.code() == 7);
    }

    proof fn lemma_code_fits(v: Self) {
        lemma_low_masks();
    }
}

impl From<SamplingTime> for u8 {
    fn from(value: SamplingTime) -> (code: u8)
        ensures
            code == value.code(),
    {
        match value {
            SamplingTime::T1_5 => 0,
            SamplingTime::T3_5 => 1,
            SamplingTime::T7_5 => 2,
            SamplingTime::T12_5 => 3,
            SamplingTime::T19_5 => 4,
            SamplingTime::T39_5 => 5,
            SamplingTime::T79_5 => 6,
            SamplingTime::T160_5 => 7,
        }
    }
}

impl FromSpecImpl<SamplingTime> for u8 {
    open spec fn obeys_from_spec() -> bool {
        true
    }

    open spec fn from_spec(v: SamplingTime) -> u8 {
        v.code()
    }
}

impl SamplingTime {
    /// Decodes a sampling time; nothing for a code above 7.
    pub fn from_u8(value: u8) -> (variant: Option<Self>)
        ensures
            variant == decoded::<Self>(value),
            variant is Some <==> Self::declared(value),
            variant matches Some(v) ==> v.code() == value,
    {
        let variant = match value {
            0 => Some(SamplingTime::T1_5),
            1 => Some(SamplingTime::T3_5),
            2 => Some(SamplingTime::T7_5),
            3 => Some(SamplingTime::T12_5),
            4 => Some(SamplingTime::T19_5),
            5 => Some(SamplingTime::T39_5),
            6 => Some(SamplingTime::T79_5),
            7 => Some(SamplingTime::T160_5),
            _ => None,
        };
        proof {
            lemma_decoded::<Self>(value);
            if let Some(v) = variant {
                lemma_decoded_is(value, v);
            }
        }
        variant
    }
}

/// ADC channel
#[derive(Clone, Copy, Debug, PartialEq, Eq, Structural)]
pub enum Channel {
    /// ADC channel 0
    C0,
    /// ADC channel 1
    C1,
    /// ADC channel 2
    C2,
    /// ADC channel 3
    C3,
    /// ADC channel 4
    C4,
    /// ADC channel 5
    C5,
    /// ADC channel 6
    C6,
    /// ADC channel 7
    C7,
    /// ADC channel 8
    C8,
    /// ADC channel 9
    C9,
    /// ADC channel 10
    C10,
    /// ADC channel 11
    C11,
    /// ADC channel 12
    C12,
    /// ADC channel 13
    C13,
    /// ADC channel 14
    C14,
    /// ADC channel 15
    C15,
    /// ADC channel 16
    C16,
    /// ADC channel 17
    C17,
    /// ADC channel 18
    C18,
}

impl RegisterField for Channel {
    open spec fn code(self) -> u8 {
        match self {
            Channel::C0 => 0,
            Channel::C1 => 1,
            Channel::C2 => 2,
            Channel::C3 => 3,
            Channel::C4 => 4,
            Channel::C5 => 5,
            Channel::C6 => 6,
            Channel::C7 => 7,
            Channel::C8 => 8,
            Channel::C9 => 9,
            Channel::C10 => 10,
            Channel::C11 => 11,
            Channel::C12 => 12,
            Channel::C13 => 13,
            Channel::C14 => 14,
            Channel::C15 => 15,
            Channel::C16 => 16,
            Channel::C17 => 17,
            Channel::C18 => 18,
        }
    }

    open spec fn declared(code: u8) -> bool {
        code <= 18
    }

    open spec fn width() -> u32 {
        5
    }

    proof fn lemma_code_injective(a: Self, b: Self) {
    }

    proof fn lemma_declared(code: u8) {
        assert(Channel::C0.code() == 0);
        assert(Channel::C1.code() == 1);
        assert(Channel::C2.code() == 2);
        assert(Channel::C3.code() == 3);
        assert(Channel::C4.code() == 4);
        assert(Channel::C5.code() == 5);
        assert(Channel::C6.code() == 6);
        assert(Channel::C7.code() == 7);
        assert(Channel::C8.code() == 8);
        assert(Channel::C9.code() == 9);
        assert(Channel::C10.code() == 10);
        assert(Channel::C11.code() == 11);
        assert(Channel::C12.code() == 12);
        assert(Channel::C13.code() == 13);
        assert(Channel::C14.code() == 14);
        assert(Channel::C15.code() == 15);
        assert(Channel::C16.code() == 16);
        assert(Channel::C17.code() == 17);
        assert(Channel::C18.code() == 18);
    }

    proof fn lemma_code_fits(v: Self) {
        lemma_low_masks();
    }
}

impl From<Channel> for u8 {
    fn from(value: Channel) -> (code: u8)
        ensures
            code == value.code(),
    {
        match value {
            Channel::C0 => 0,
            Channel::C1 => 1,
            Channel::C2 => 2,
            Channel::C3 => 3,
            Channel::C4 => 4,
            Channel::C5 => 5,
            Channel::C6 => 6,
            Channel::C7 => 7,
            Channel::C8 => 8,
            Channel::C9 => 9,
            Channel::C10 => 10,
            Channel::C11 => 11,
            Channel::C12 => 12,
            Channel::C13 => 13,
            Channel::C14 => 14,
            Channel::C15 => 15,
            Channel::C16 => 16,
            Channel::C17 => 17,
            Channel::C18 => 18,
        }
    }
}

impl FromSpecImpl<Channel> for u8 {
    open spec fn obeys_from_spec() -> bool {
        true
    }

    open spec fn from_spec(v: Channel) -> u8 {
        v.code()
    }
}

impl Channel {
    /// Decodes a channel from its index; nothing for an index above 18.
    pub fn from_u8(value: u8) -> (variant: Option<Self>)
        ensures
            variant == decoded::<Self>(value),
            variant is Some <==> Self::declared(value),
            variant matches Some(v) ==> v.code() == value,
    {
        let variant = match value {
            0 => Some(Channel::C0),
            1 => Some(Channel::C1),
            2 => Some(Channel::C2),
            3 => Some(Channel::C3),
            4 => Some(Channel::C4),
            5 => Some(Channel::C5),
            6 => Some(Channel::C6),
            7 => Some(Channel::C7),
            8 => Some(Channel::C8),
            9 => Some(Channel::C9),
            10 => Some(Channel::C10),
            11 => Some(Channel::C11),
            12 => Some(Channel::C12),
            13 => Some(Channel::C13),
            14 => Some(Channel::C14),
            15 => Some(Channel::C15),
            16 => Some(Channel::C16),
            17 => Some(Channel::C17),
            18 => Some(Channel::C18),
            _ => None,
        };
        proof {
            lemma_decoded::<Self>(value);
            if let Some(v) = variant {
                lemma_decoded_is(value, v);
            }
        }
        variant
    }

    /// Decodes a channel from its position counted from one: 1 is channel
    /// 0 and 19 is channel 18. Nothing for 0 or a number above 19.
    pub fn from_usize(value: usize) -> (channel: Option<Self>)
        ensures
            channel == (if 1 <= value <= 19 {
                decoded::<Self>((value - 1) as u8)
            } else {
                None
            }),
            channel is Some <==> 1 <= value <= 19,
            channel matches Some(c) ==> c.code() == value - 1,
    {
        if 1 <= value && value <= 19 {
            Self::from_u8((value - 1) as u8)
        } else {
            None
        }
    }
}

/// ADC rank
#[derive(Clone, Copy, Debug, PartialEq, Eq, Structural)]
pub enum RegularRank {
    /// ADC regular sequencer rank 1
    R1,
    /// ADC regular sequencer rank 2
    R2,
    /// ADC regular sequencer rank 3
    R3,
    /// ADC regular sequencer rank 4
    R4,
    /// ADC regular sequencer rank 5
    R5,
    /// ADC regular sequencer rank 6
    R6,
    /// ADC regular sequencer rank 7
    R7,
    /// ADC regular sequencer rank 8
    R8,
}

impl RegisterField for RegularRank {
    open spec fn code(self) -> u8 {
        match self {
            RegularRank::R1 => 0,
            RegularRank::R2 => 4,
            RegularRank::R3 => 8,
            RegularRank::R4 => 12,
            RegularRank::R5 => 16,
            RegularRank::R6 => 20,
            RegularRank::R7 => 24,
            RegularRank::R8 => 28,
        }
    }

    open spec fn declared(code: u8) -> bool {
        code % 4 == 0 && code <= 28
    }

    open spec fn width() -> u32 {
        5
    }

    proof fn lemma_code_injective(a: Self, b: Self) {
    }

    proof fn lemma_declared(code: u8) {
        assert(RegularRank::R1.code() == 0);
        assert(RegularRank::R2.code() == 4);
        assert(RegularRank::R3.code() == 8);
        assert(RegularRank::R4.code() == 12);
        assert(RegularRank::R5.code() == 16);
        assert(RegularRank::R6.code() == 20);
        assert(RegularRank::R7.code() == 24);
        assert(RegularRank::R8.code() == 28);
    }

    proof fn lemma_code_fits(v: Self) {
        lemma_low_masks();
    }
}

impl From<RegularRank> for u8 {
    fn from(value: RegularRank) -> (code: u8)
        ensures
            code == value.code(),
    {
        match value {
            RegularRank::R1 => 0,
            RegularRank::R2 => 4,
            RegularRank::R3 => 8,
            RegularRank::R4 => 12,
            RegularRank::R5 => 16,
            RegularRank::R6 => 20,
            RegularRank::R7 => 24,
            RegularRank::R8 => 28,
        }
    }
}

impl FromSpecImpl<RegularRank> for u8 {
    open spec fn obeys_from_spec() -> bool {
        true
    }

    open spec fn from_spec(v: RegularRank) -> u8 {
        v.code()
    }
}

impl RegularRank {
    /// Decodes a rank from the offset of its field; nothing for a number
    /// that is not a multiple of 4 or is above 28.
    pub fn from_u8(value: u8) -> (variant: Option<Self>)
        ensures
            variant == decoded::<Self>(value),
            variant is Some <==> Self::declared(value),
            variant matches Some(v) ==> v.code() == value,
    {
        let variant = match value {
            0 => Some(RegularRank::R1),
            4 => Some(RegularRank::R2),
            8 => Some(RegularRank::R3),
            12 => Some(RegularRank::R4),
            16 => Some(RegularRank::R5),
            20 => Some(RegularRank::R6),
            24 => Some(RegularRank::R7),
            28 => Some(RegularRank::R8),
            _ => None,
        };
        proof {
            lemma_decoded::<Self>(value);
            if let Some(v) = variant {
                lemma_decoded_is(value, v);
            }
        }
        variant
    }
}

/// The words of the converter's registers that the driver uses.
#[derive(Clone, Copy, Debug, PartialEq, Eq, Structural)]
pub struct RegisterBlock {
    /// Control register
    pub cr: u32,
    /// Configuration register 1
    pub cfgr1: u32,
    /// Configuration register 2
    pub cfgr2: u32,
    /// Sampling time register
    pub smpr: u32,
}

impl RegisterBlock {
    /// The registers as they are after a reset.
    pub open spec fn at_reset() -> Self {
        RegisterBlock { cr: 0, cfgr1: 0, cfgr2: 0, smpr: 0 }
    }
}

/// The word that starts a calibration when written to the control register
/// that holds `cr`: the calibration bit is set, the other command bits are
/// clear so that no other command is given, and the rest is as in `cr`.
pub open spec fn calibration_start(cr: u32) -> u32 {
    with_bit(cr & !CR_COMMANDS, CR_ADCAL, true)
}

/// What `calibration_start` does to each bit.
pub proof fn lemma_calibration_start(cr: u32, i: u32)
    requires
        i < 32,
    ensures
        bit(calibration_start(cr), i) == (if i == CR_ADCAL {
            true
        } else if i == 0 || i == 1 || i == 2 || i == 4 {
            false
        } else {
            bit(cr, i)
        }),
{
    lemma_bit_of_with_bit(cr & !CR_COMMANDS, CR_ADCAL, true, i);
    assert(bit(cr & !0x8000_0017u32, i) == (if i == 0 || i == 1 || i == 2 || i == 4 || i == 31 {
        false
    } else {
        bit(cr, i)
    })) by (bit_vector)
        requires
            i < 32,
    ;
}

/// The handle of the converter. There is one: `new` is the only way to
/// make it.
#[derive(Debug)]
pub struct Adc {
    claim: Claim,
    rb: RegisterBlock,
}

impl View for Adc {
    type V = RegisterBlock;

    closed spec fn view(&self) -> RegisterBlock {
        self.rb
    }
}

impl Adc {
    /// Claims the converter. The handle is granted if and only if the
    /// converter was not taken. With it the converter's bus clock is
    /// enabled in `rcc`, and the handle starts with the registers as they
    /// are after a reset. A refused call changes nothing.
    pub fn new(rcc: &mut Rcc, guard: &mut OwnershipGuard) -> (adc: Option<Self>)
        ensures
            adc is Some <==> !old(guard).is_taken(PeripheralKind::Adc),
            adc matches Some(handle) ==> handle@ == RegisterBlock::at_reset(),
            *final(guard) == old(guard).after_acquire(PeripheralKind::Adc),
            final(guard).is_taken(PeripheralKind::Adc),
            final(guard).is_taken(PeripheralKind::Rcc) == old(guard).is_taken(PeripheralKind::Rcc),
            adc is Some ==> final(rcc)@ == old(rcc)@.with_gate(
                Peripheral::APB2(APB2Peripheral::ADC).gate(),
                true,
            ),
            adc is None ==> *final(guard) == *old(guard) && final(rcc)@ == old(rcc)@,
    {
        match guard.acquire(PeripheralKind::Adc) {
            Some(claim) => {
                rcc.enable_peripheral_clock(Peripheral::APB2(APB2Peripheral::ADC));
                Some(Adc { claim, rb: RegisterBlock { cr: 0, cfgr1: 0, cfgr2: 0, smpr: 0 } })
            },
            None => None,
        }
    }

    /// The register words that the handle holds.
    pub fn registers(&self) -> (rb: RegisterBlock)
        ensures
            rb == self@,
    {
        self.rb
    }

    /// Replaces the register words that the handle holds, with words read
    /// from the registers.
    pub fn load(&mut self, rb: RegisterBlock)
        ensures
            final(self)@ == rb,
    {
        self.rb = rb;
    }

    /// Start ADC calibration: leaves in the control register the word that
    /// starts it. The calibration runs until the converter clears the
    /// calibration bit; `is_calibrating` tells, of the control register as
    /// it is read after that, whether it still runs.
    pub fn calibrate(&mut self)
        ensures
            final(self)@ == (RegisterBlock { cr: calibration_start(old(self)@.cr), ..old(self)@ }),
            bit(final(self)@.cr, CR_ADCAL),
    {
        proof {
            lemma_calibration_start(self.rb.cr, CR_ADCAL);
        }
        self.rb.cr = write_bit(self.rb.cr & !CR_COMMANDS, CR_ADCAL, true);
    }

    /// Whether a calibration is running: whether the calibration bit of
    /// the control register is set.
    pub fn is_calibrating(&self) -> (running: bool)
        ensures
            running == bit(self@.cr, CR_ADCAL),
    {
        read_bit(self.rb.cr, CR_ADCAL)
    }

    /// Set ADC clock mode
    pub fn set_clock_mode(&mut self, clock_mode: ClockMode)
        ensures
            final(self)@ == (RegisterBlock {
                cfgr2: with_field(old(self)@.cfgr2, CFGR2_CKMODE, MODE_WIDTH, clock_mode.code() as u32),
                ..old(self)@
            }),
            field(final(self)@.cfgr2, CFGR2_CKMODE, MODE_WIDTH) == clock_mode.code(),
    {
        let code: u8 = u8::from(clock_mode);
        proof {
            ClockMode::lemma_code_fits(clock_mode);
            lemma_field_of_with_field(self.rb.cfgr2, CFGR2_CKMODE, MODE_WIDTH, code as u32);
        }
        self.rb.cfgr2 = write_field(self.rb.cfgr2, CFGR2_CKMODE, MODE_WIDTH, code as u32);
    }

    /// Set ADC resolution
    pub fn set_resolution(&mut self, resolution: Resolution)
        ensures
            final(self)@ == (RegisterBlock {
                cfgr1: with_field(old(self)@.cfgr1, CFGR1_RES, MODE_WIDTH, resolution.code() as u32),
                ..old(self)@
            }),
            field(final(self)@.cfgr1, CFGR1_RES, MODE_WIDTH) == resolution.code(),
    {
        let code: u8 = u8::from(resolution);
        proof {
            Resolution::lemma_code_fits(resolution);
            lemma_field_of_with_field(self.rb.cfgr1, CFGR1_RES, MODE_WIDTH, code as u32);
        }
        self.rb.cfgr1 = write_field(self.rb.cfgr1, CFGR1_RES, MODE_WIDTH, code as u32);
    }

    /// Set ADC data alignment
    pub fn set_data_alignment(&mut self, data_alignment: DataAlignment)
        ensures
            final(self)@ == (RegisterBlock {
                cfgr1: with_bit(old(self)@.cfgr1, CFGR1_ALIGN, data_alignment.code() == 1),
                ..old(self)@
            }),
            bit(final(self)@.cfgr1, CFGR1_ALIGN) == (data_alignment == DataAlignment::Left),
    {
        let left: bool = bool::from(data_alignment);
        proof {
            lemma_bit_of_with_bit(self.rb.cfgr1, CFGR1_ALIGN, left, CFGR1_ALIGN);
        }
        self.rb.cfgr1 = write_bit(self.rb.cfgr1, CFGR1_ALIGN, left);
    }

    /// Set ADC low power mode. Both bits of the low-power field are
    /// replaced by the code of the mode: a bit that the mode asks for is
    /// set, and one that it does not ask for is cleared.
    pub fn set_low_power_mode(&mut self, low_power_mode: LowPowerMode)
        ensures
            final(self)@ == (RegisterBlock {
                cfgr1: with_field(
                    old(self)@.cfgr1,
                    CFGR1_LOW_POWER,
                    MODE_WIDTH,
                    low_power_mode.code() as u32,
                ),
                ..old(self)@
            }),
            field(final(self)@.cfgr1, CFGR1_LOW_POWER, MODE_WIDTH) == low_power_mode.code(),
    {
        let code: u8 = u8::from(low_power_mode);
        proof {
            LowPowerMode::lemma_code_fits(low_power_mode);
            lemma_field_of_with_field(self.rb.cfgr1, CFGR1_LOW_POWER, MODE_WIDTH, code as u32);
        }
        self.rb.cfgr1 = write_field(self.rb.cfgr1, CFGR1_LOW_POWER, MODE_WIDTH, code as u32);
    }

    /// Set sampling time for a common group: writes the code of the
    /// sampling time to the field of the group, at offset 0 for the first
    /// group and 4 for the second.
    pub fn set_common_group_sampling_time(
        &mut self,
        common_group: SamplingTimeCommonGroup,
        sampling_time: SamplingTime,
    )
        ensures
            final(self)@ == (RegisterBlock {
                smpr: with_field(
                    old(self)@.smpr,
                    common_group.code() as u32,
                    SAMPLING_TIME_WIDTH,
                    sampling_time.code() as u32,
                ),
                ..old(self)@
            }),
            field(final(self)@.smpr, common_group.code() as u32, SAMPLING_TIME_WIDTH)
                == sampling_time.code(),
    {
        let offset: u8 = u8::from(common_group);
        let code: u8 = u8::from(sampling_time);
        proof {
            SamplingTime::lemma_code_fits(sampling_time);
            lemma_field_of_with_field(
                self.rb.smpr,
                offset as u32,
                SAMPLING_TIME_WIDTH,
                code as u32,
            );
        }
        self.rb.smpr = write_field(self.rb.smpr, offset as u32, SAMPLING_TIME_WIDTH, code as u32);
    }

    /// Set sampling time group for a channel: writes the group to the
    /// channel's selection bit, which is the channel's index above
    /// `SMPR_SMPSEL`.
    pub fn set_channel_sampling_time_group(
        &mut self,
        channel: Channel,
        common_group: SamplingTimeCommonGroup,
    )
        ensures
            final(self)@ == (RegisterBlock {
                smpr: with_bit(
                    old(self)@.smpr,
                    (SMPR_SMPSEL + channel.code()) as u32,
                    common_group.selects_second(),
                ),
                ..old(self)@
            }),
            bit(final(self)@.smpr, (SMPR_SMPSEL + channel.code()) as u32)
                == common_group.selects_second(),
    {
        let index: u32 = SMPR_SMPSEL + (u8::from(channel) as u32);
        let second: bool = bool::from(common_group);
        proof {
            lemma_bit_of_with_bit(self.rb.smpr, index, second, index);
        }
        self.rb.smpr = write_bit(self.rb.smpr, index, second);
    }
}

} // verus!
