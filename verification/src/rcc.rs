//! Reset and clock control: clock sources, oscillator switches and the bus
//! clock gates.
//!
//! [`Rcc`] is the handle of the clock controller. It holds the words of the
//! controller's registers; every operation says which bits of which word it
//! changes, and leaves every other bit as it was.

use crate::bits::{
    bit, field, lemma_bit_of_with_bit, lemma_low_masks, lemma_with_bit_undone, read_bit,
    read_field, with_bit, with_field, write_bit, write_field,
};
use crate::codec::{decoded, lemma_decoded, lemma_decoded_is, RegisterField};
use crate::guard::{OwnershipGuard, PeripheralKind};
use vstd::prelude::*;
use vstd::std_specs::convert::FromSpecImpl;

verus! {

/// Frequency of the external high-speed oscillator, in hertz.
pub const HSE_FREQ: u32 = 8_000_000;

/// Bit of the control register that switches the HSI16 oscillator on.
pub const CR_HSION: u32 = 8;

/// Bit of the control register that reports the HSI16 oscillator ready.
pub const CR_HSIRDY: u32 = 10;

/// Offset of the three-bit HSI16 division field in the control register.
pub const CR_HSIDIV: u32 = 11;

/// Bit of the control register that switches the HSE oscillator on.
pub const CR_HSEON: u32 = 16;

/// Bit of the control register that reports the HSE oscillator ready.
pub const CR_HSERDY: u32 = 17;

/// Bit of the control register that bypasses the HSE crystal oscillator.
pub const CR_HSEBYP: u32 = 18;

/// Bit of the control register that switches the clock security system on.
pub const CR_CSSON: u32 = 19;

/// Bit of the control register that switches the HSI48 oscillator on.
pub const CR_HSI48ON: u32 = 22;

/// Bit of the control register that switches the PLL on.
pub const CR_PLLON: u32 = 24;

/// Bit of the control register that reports the PLL locked.
pub const CR_PLLRDY: u32 = 25;

/// Offset of the three-bit system clock switch in the configuration register.
pub const CFGR_SW: u32 = 0;

/// Offset of the three-bit system clock switch status in the configuration
/// register.
pub const CFGR_SWS: u32 = 3;

/// Bits in each of the two fields above, and in the HSI16 division field.
pub const CLOCK_FIELD_WIDTH: u32 = 3;

/// The control register as it is after a reset: HSI16 on and ready.
pub const CR_AT_RESET: u32 = 0x0000_0500;

/// System clock sources
#[derive(Clone, Copy, Debug, PartialEq, Eq, Structural)]
pub enum SystemClockSource {
    HSI,
    HSE,
    PLL,
    LSI,
    LSE,
}

impl RegisterField for SystemClockSource {
    open spec fn code(self) -> u8 {
        match self {
            SystemClockSource::HSI => 0,
            SystemClockSource::HSE => 1,
            SystemClockSource::PLL => 2,
            SystemClockSource::LSI => 3,
            SystemClockSource::LSE => 4,
        }
    }

    open spec fn declared(code: u8) -> bool {
        code <= 4
    }

    open spec fn width() -> u32 {
        3
    }

    proof fn lemma_code_injective(a: Self, b: Self) {
    }

    proof fn lemma_declared(code: u8) {
        assert(SystemClockSource::HSI.code() == 0);
        assert(SystemClockSource::HSE.code() == 1);
        assert(SystemClockSource::PLL.code() == 2);
        assert(SystemClockSource::LSI.code() == 3);
        assert(SystemClockSource::LSE.code() == 4);
    }

    proof fn lemma_code_fits(v: Self) {
        lemma_low_masks();
    }
}

impl From<SystemClockSource> for u8 {
    fn from(value: SystemClockSource) -> (code: u8)
        ensures
            code == value.code(),
    {
        match value {
            SystemClockSource::HSI => 0,
            SystemClockSource::HSE => 1,
            SystemClockSource::PLL => 2,
            SystemClockSource::LSI => 3,
            SystemClockSource::LSE => 4,
        }
    }
}

impl FromSpecImpl<SystemClockSource> for u8 {
    open spec fn obeys_from_spec() -> bool {
        true
    }

    open spec fn from_spec(v: SystemClockSource) -> u8 {
        v.code()
    }
}

impl SystemClockSource {
    /// Decodes a system clock source; nothing for a code above 4.
    pub fn from_u8(value: u8) -> (variant: Option<Self>)
        ensures
            variant == decoded::<Self>(value),
            variant is Some <==> Self::declared(value),
            variant matches Some(v) ==> v.code() == value,
    {
        let variant = match value {
            0 => Some(SystemClockSource::HSI),
            1 => Some(SystemClockSource::HSE),
            2 => Some(SystemClockSource::PLL),
            3 => Some(SystemClockSource::LSI),
            4 => Some(SystemClockSource::LSE),
            _ => None,
        };
        proof {
            lemma_decoded::<Self>(value);
            if let Some(v) = variant {
                lemma_decoded_is(value, v);
            }
        }
        variant
    }
}
/// HSI16 clock division factor
#[derive(Clone, Copy, Debug, PartialEq, Eq, Structural)]
pub enum HSI16DivisionFactor {
    Div1,
    Div2,
    Div4,
    Div8,
    Div16,
    Div32,
    Div64,
    Div128,
}

impl RegisterField for HSI16DivisionFactor {
    open spec fn code(self) -> u8 {
        match self {
            HSI16DivisionFactor::Div1 => 0,
            HSI16DivisionFactor::Div2 => 1,
            HSI16DivisionFactor::Div4 => 2,
            HSI16DivisionFactor::Div8 => 3,
            HSI16DivisionFactor::Div16 => 4,
            HSI16DivisionFactor::Div32 => 5,
            HSI16DivisionFactor::Div64 => 6,
            HSI16DivisionFactor::Div128 => 7,
        }
    }

    open spec fn declared(code: u8) -> bool {
        code <= 7
    }

    open spec fn width() -> u32 {
        3
    }

    proof fn lemma_code_injective(a: Self, b: Self) {
    }

    proof fn lemma_declared(code: u8) {
        assert(HSI16DivisionFactor::Div1.code() == 0);
        assert(HSI16DivisionFactor::Div2.code() == 1);
        assert(HSI16DivisionFactor::Div4.code() == 2);
        assert(HSI16DivisionFactor::Div8.code() == 3);
        assert(HSI16DivisionFactor::Div16.code() == 4);
        assert(HSI16DivisionFactor::Div32.code() == 5);
        assert(HSI16DivisionFactor::Div64.code() == 6);
        assert(HSI16DivisionFactor::Div128.code() == 7);
    }

    proof fn lemma_code_fits(v: Self) {
        lemma_low_masks();
    }
}

impl From<HSI16DivisionFactor> for u8 {
    fn from(value: HSI16DivisionFactor) -> (code: u8)
        ensures
            code == value.code(),
    {
        match value {
            HSI16DivisionFactor::Div1 => 0,
            HSI16DivisionFactor::Div2 => 1,
            HSI16DivisionFactor::Div4 => 2,
            HSI16DivisionFactor::Div8 => 3,
            HSI16DivisionFactor::Div16 => 4,
            HSI16DivisionFactor::Div32 => 5,
            HSI16DivisionFactor::Div64 => 6,
            HSI16DivisionFactor::Div128 => 7,
        }
    }
}

impl FromSpecImpl<HSI16DivisionFactor> for u8 {
    open spec fn obeys_from_spec() -> bool {
        true
    }

    open spec fn from_spec(v: HSI16DivisionFactor) -> u8 {
        v.code()
    }
}

impl HSI16DivisionFactor {
    /// Decodes an HSI16 division factor; nothing for a code above 7.
    pub fn from_u8(value: u8) -> (variant: Option<Self>)
        ensures
            variant == decoded::<Self>(value),
            variant is Some <==> Self::declared(value),
            variant matches Some(v) ==> v.code() == value,
    {
        let variant = match value {
            0 => Some(HSI16DivisionFactor::Div1),
            1 => Some(HSI16DivisionFactor::Div2),
            2 => Some(HSI16DivisionFactor::Div4),
            3 => Some(HSI16DivisionFactor::Div8),
            4 => Some(HSI16DivisionFactor::Div16),
            5 => Some(HSI16DivisionFactor::Div32),
            6 => Some(HSI16DivisionFactor::Div64),
            7 => Some(HSI16DivisionFactor::Div128),
            _ => None,
        };
        proof {
            lemma_decoded::<Self>(value);
            if let Some(v) = variant {
                lemma_decoded_is(value, v);
            }
        }
        variant
    }
}
/// The registers that gate the bus clocks.
#[derive(Clone, Copy, Debug, PartialEq, Eq, Structural)]
pub enum Bus {
    /// APB peripheral clock enable register 1
    APB1,
    /// APB peripheral clock enable register 2
    APB2,
    /// I/O port clock enable register
    IOP,
}

/// Where the clock of one peripheral is gated: a bit of a gating register.
#[derive(Clone, Copy, Debug, PartialEq, Eq, Structural)]
pub struct ClockGate {
    pub bus: Bus,
    pub offset: u8,
}

/// RCC's APB1 and APB2 peripherals
#[derive(Clone, Copy, Debug, PartialEq, Eq, Structural)]
pub enum Peripheral {
    APB1(APB1Peripheral),
    APB2(APB2Peripheral),
}

/// RCC APB1 peripherals
#[derive(Clone, Copy, Debug, PartialEq, Eq, Structural)]
pub enum APB1Peripheral {
    /// Timer 2
    TIM2,
    /// Timer 3
    TIM3,
    /// Timer 4
    TIM4,
    /// Timer 6
    TIM6,
    /// Timer 7
    TIM7,
    /// Low Power UART2
    LPUART2,
    /// USART5
    USART5,
    /// USART6
    USART6,
    /// RTC APB
    RTCAPB,
    /// Window Watchdog
    WWDG,
    /// FDCAN
    FDCAN,
    /// USB
    USB,
    /// SPI2
    SPI2,
    /// SPI3
    SPI3,
    /// CRS
    CRS,
    /// USART2
    USART2,
    /// USART3
    USART3,
    /// USART4
    USART4,
    /// Low Power UART1
    LPUART1,
    /// I2C1
    I2C1,
    /// I2C2
    I2C2,
    /// I2C3
    I2C3,
    /// HDMI CEC
    CEC,
    /// USB-C Power Delivery 1
    UCPD1,
    /// USB-C Power Delivery 2
    UCPD2,
    /// Debug Support
    DBG,
    /// Power Interface
    PWR,
    /// DAC1
    DAC1,
    /// Low Power TIM2
    LPTIM2,
    /// Low Power TIM1
    LPTIM1,
}

impl APB1Peripheral {
    /// The offset of this variant's bit in the APB1 gating register.
    pub open spec fn offset(self) -> u8 {
        match self {
            APB1Peripheral::TIM2 => 0,
            APB1Peripheral::TIM3 => 1,
            APB1Peripheral::TIM4 => 2,
            APB1Peripheral::TIM6 => 4,
            APB1Peripheral::TIM7 => 5,
            APB1Peripheral::LPUART2 => 7,
            APB1Peripheral::USART5 => 8,
            APB1Peripheral::USART6 => 9,
            APB1Peripheral::RTCAPB => 10,
            APB1Peripheral::WWDG => 11,
            APB1Peripheral::FDCAN => 12,
            APB1Peripheral::USB => 13,
            APB1Peripheral::SPI2 => 14,
            APB1Peripheral::SPI3 => 15,
            APB1Peripheral::CRS => 16,
            APB1Peripheral::USART2 => 17,
            APB1Peripheral::USART3 => 18,
            APB1Peripheral::USART4 => 19,
            APB1Peripheral::LPUART1 => 20,
            APB1Peripheral::I2C1 => 21,
            APB1Peripheral::I2C2 => 22,
            APB1Peripheral::I2C3 => 23,
            APB1Peripheral::CEC => 24,
            APB1Peripheral::UCPD1 => 25,
            APB1Peripheral::UCPD2 => 26,
            APB1Peripheral::DBG => 27,
            APB1Peripheral::PWR => 28,
            APB1Peripheral::DAC1 => 29,
            APB1Peripheral::LPTIM2 => 30,
            APB1Peripheral::LPTIM1 => 31,
        }
    }
}

impl From<APB1Peripheral> for u8 {
    fn from(value: APB1Peripheral) -> (offset: u8)
        ensures
            offset == value.offset(),
            offset < 32,
    {
        match value {
            APB1Peripheral::TIM2 => 0,
            APB1Peripheral::TIM3 => 1,
            APB1Peripheral::TIM4 => 2,
            APB1Peripheral::TIM6 => 4,
            APB1Peripheral::TIM7 => 5,
            APB1Peripheral::LPUART2 => 7,
            APB1Peripheral::USART5 => 8,
            APB1Peripheral::USART6 => 9,
            APB1Peripheral::RTCAPB => 10,
            APB1Peripheral::WWDG => 11,
            APB1Peripheral::FDCAN => 12,
            APB1Peripheral::USB => 13,
            APB1Peripheral::SPI2 => 14,
            APB1Peripheral::SPI3 => 15,
            APB1Peripheral::CRS => 16,
            APB1Peripheral::USART2 => 17,
            APB1Peripheral::USART3 => 18,
            APB1Peripheral::USART4 => 19,
            APB1Peripheral::LPUART1 => 20,
            APB1Peripheral::I2C1 => 21,
            APB1Peripheral::I2C2 => 22,
            APB1Peripheral::I2C3 => 23,
            APB1Peripheral::CEC => 24,
            APB1Peripheral::UCPD1 => 25,
            APB1Peripheral::UCPD2 => 26,
            APB1Peripheral::DBG => 27,
            APB1Peripheral::PWR => 28,
            APB1Peripheral::DAC1 => 29,
            APB1Peripheral::LPTIM2 => 30,
            APB1Peripheral::LPTIM1 => 31,
        }
    }
}

impl FromSpecImpl<APB1Peripheral> for u8 {
    open spec fn obeys_from_spec() -> bool {
        true
    }

    open spec fn from_spec(v: APB1Peripheral) -> u8 {
        v.offset()
    }
}
/// RCC APB2 Peripherals
#[derive(Clone, Copy, Debug, PartialEq, Eq, Structural)]
pub enum APB2Peripheral {
    /// System configuration controller
    SYSCFG,
    /// Timer 1
    TIM1,
    /// SPI1
    SPI1,
    /// USART1
    USART1,
    /// Timer 14
    TIM14,
    /// Timer 15
    TIM15,
    /// Timer 16
    TIM16,
    /// Timer 17
    TIM17,
    /// Analog-to-digital converter
    ADC,
}

impl APB2Peripheral {
    /// The offset of this variant's bit in the APB2 gating register.
    pub open spec fn offset(self) -> u8 {
        match self {
            APB2Peripheral::SYSCFG => 0,
            APB2Peripheral::TIM1 => 11,
            APB2Peripheral::SPI1 => 12,
            APB2Peripheral::USART1 => 14,
            APB2Peripheral::TIM14 => 15,
            APB2Peripheral::TIM15 => 16,
            APB2Peripheral::TIM16 => 17,
            APB2Peripheral::TIM17 => 18,
            APB2Peripheral::ADC => 20,
        }
    }
}

impl From<APB2Peripheral> for u8 {
    fn from(value: APB2Peripheral) -> (offset: u8)
        ensures
            offset == value.offset(),
            offset < 32,
    {
        match value {
            APB2Peripheral::SYSCFG => 0,
            APB2Peripheral::TIM1 => 11,
            APB2Peripheral::SPI1 => 12,
            APB2Peripheral::USART1 => 14,
            APB2Peripheral::TIM14 => 15,
            APB2Peripheral::TIM15 => 16,
            APB2Peripheral::TIM16 => 17,
            APB2Peripheral::TIM17 => 18,
            APB2Peripheral::ADC => 20,
        }
    }
}

impl FromSpecImpl<APB2Peripheral> for u8 {
    open spec fn obeys_from_spec() -> bool {
        true
    }

    open spec fn from_spec(v: APB2Peripheral) -> u8 {
        v.offset()
    }
}
/// The GPIO ports
#[derive(Clone, Copy, Debug, PartialEq, Eq, Structural)]
pub enum GPIOPort {
    /// Port A
    GPIOA,
    /// Port B
    GPIOB,
    /// Port C
    GPIOC,
    /// Port D
    GPIOD,
    /// Port E
    GPIOE,
    /// Port F
    GPIOF,
}

impl GPIOPort {
    /// The offset of this variant's bit in the I/O port gating register.
    pub open spec fn offset(self) -> u8 {
        match self {
            GPIOPort::GPIOA => 0,
            GPIOPort::GPIOB => 1,
            GPIOPort::GPIOC => 2,
            GPIOPort::GPIOD => 3,
            GPIOPort::GPIOE => 4,
            GPIOPort::GPIOF => 5,
        }
    }
}

impl From<GPIOPort> for u8 {
    fn from(value: GPIOPort) -> (offset: u8)
        ensures
            offset == value.offset(),
            offset < 32,
    {
        match value {
            GPIOPort::GPIOA => 0,
            GPIOPort::GPIOB => 1,
            GPIOPort::GPIOC => 2,
            GPIOPort::GPIOD => 3,
            GPIOPort::GPIOE => 4,
            GPIOPort::GPIOF => 5,
        }
    }
}

impl FromSpecImpl<GPIOPort> for u8 {
    open spec fn obeys_from_spec() -> bool {
        true
    }

    open spec fn from_spec(v: GPIOPort) -> u8 {
        v.offset()
    }
}
impl Peripheral {
    /// The clock gate of this peripheral.
    pub open spec fn spec_gate(self) -> ClockGate {
        match self {
            Peripheral::APB1(p) => ClockGate { bus: Bus::APB1, offset: p.offset() },
            Peripheral::APB2(p) => ClockGate { bus: Bus::APB2, offset: p.offset() },
        }
    }

    /// The clock gate of this peripheral.
    #[verifier::when_used_as_spec(spec_gate)]
    pub fn gate(self) -> (gate: ClockGate)
        ensures
            gate == self.spec_gate(),
            gate.offset < 32,
    {
        match self {
            Peripheral::APB1(p) => ClockGate { bus: Bus::APB1, offset: u8::from(p) },
            Peripheral::APB2(p) => ClockGate { bus: Bus::APB2, offset: u8::from(p) },
        }
    }
}

impl GPIOPort {
    /// The clock gate of this port.
    pub open spec fn spec_gate(self) -> ClockGate {
        ClockGate { bus: Bus::IOP, offset: self.offset() }
    }

    /// The clock gate of this port.
    #[verifier::when_used_as_spec(spec_gate)]
    pub fn gate(self) -> (gate: ClockGate)
        ensures
            gate == self.spec_gate(),
            gate.offset < 32,
    {
        ClockGate { bus: Bus::IOP, offset: u8::from(self) }
    }
}

/// No two peripherals share a gate: on one bus, no two share an offset.
pub proof fn lemma_peripheral_gates_distinct(p: Peripheral, q: Peripheral)
    requires
        p != q,
    ensures
        p.gate() != q.gate(),
        p.gate().offset < 32,
{
}

/// No two ports share a gate, and no port shares one with a peripheral.
pub proof fn lemma_port_gates_distinct(g: GPIOPort, h: GPIOPort, p: Peripheral)
    ensures
        g != h ==> g.gate() != h.gate(),
        g.gate() != p.gate(),
        g.gate().offset < 32,
{
}

/// The words of the clock controller's registers that the driver uses.
#[derive(Clone, Copy, Debug, PartialEq, Eq, Structural)]
pub struct RegisterBlock {
    /// Clock control register
    pub cr: u32,
    /// Clock configuration register
    pub cfgr: u32,
    /// I/O port clock enable register
    pub iopenr: u32,
    /// APB peripheral clock enable register 1
    pub apbenr1: u32,
    /// APB peripheral clock enable register 2
    pub apbenr2: u32,
}

impl RegisterBlock {
    /// The registers as they are after a reset.
    pub open spec fn at_reset() -> Self {
        RegisterBlock { cr: CR_AT_RESET, cfgr: 0, iopenr: 0, apbenr1: 0, apbenr2: 0 }
    }

    /// The word of the gating register of `bus`.
    pub open spec fn gating_word(self, bus: Bus) -> u32 {
        match bus {
            Bus::APB1 => self.apbenr1,
            Bus::APB2 => self.apbenr2,
            Bus::IOP => self.iopenr,
        }
    }

    /// Whether the clock behind `gate` is enabled.
    pub open spec fn gate_open(self, gate: ClockGate) -> bool {
        bit(self.gating_word(gate.bus), gate.offset as u32)
    }

    /// The registers with the bit of `gate` set to `open` and nothing else
    /// changed.
    pub open spec fn with_gate(self, gate: ClockGate, open: bool) -> Self {
        let word = with_bit(self.gating_word(gate.bus), gate.offset as u32, open);
        match gate.bus {
            Bus::APB1 => RegisterBlock { apbenr1: word, ..self },
            Bus::APB2 => RegisterBlock { apbenr2: word, ..self },
            Bus::IOP => RegisterBlock { iopenr: word, ..self },
        }
    }

    /// The registers with bit `index` of the control register set to `value`.
    pub open spec fn with_control_bit(self, index: u32, value: bool) -> Self {
        RegisterBlock { cr: with_bit(self.cr, index, value), ..self }
    }

    /// The code in the system clock switch status field.
    pub open spec fn clock_switch_status(self) -> u32 {
        field(self.cfgr, CFGR_SWS, CLOCK_FIELD_WIDTH)
    }
}

/// Enabling a clock that was disabled and then disabling it again gives the
/// gating registers back as they were; so does disabling one that was
/// enabled and then enabling it again.
pub proof fn lemma_gate_undone(rb: RegisterBlock, gate: ClockGate, open: bool)
    requires
        gate.offset < 32,
        rb.gate_open(gate) == open,
    ensures
        rb.with_gate(gate, !open).with_gate(gate, open) == rb,
{
    lemma_with_bit_undone(rb.gating_word(gate.bus), gate.offset as u32, open);
}

/// Switching one gate changes that gate's bit and no other bit of any
/// register: bit `index` of each register is as it was, but for the bit of
/// `gate` itself, which holds `open`.
pub proof fn lemma_gate_alone(rb: RegisterBlock, gate: ClockGate, open: bool, bus: Bus, index: u32)
    requires
        gate.offset < 32,
        index < 32,
    ensures
        rb.with_gate(gate, open).cr == rb.cr,
        rb.with_gate(gate, open).cfgr == rb.cfgr,
        bit(rb.with_gate(gate, open).gating_word(bus), index) == (if bus == gate.bus && index
            == gate.offset {
            open
        } else {
            bit(rb.gating_word(bus), index)
        }),
{
    lemma_bit_of_with_bit(rb.gating_word(gate.bus), gate.offset as u32, open, index);
}

/// Switching the clock of one peripheral never changes whether the clock of
/// another is enabled.
pub proof fn lemma_other_gate_kept(rb: RegisterBlock, gate: ClockGate, open: bool, other: ClockGate)
    requires
        gate.offset < 32,
        other.offset < 32,
        other != gate,
    ensures
        rb.with_gate(gate, open).gate_open(other) == rb.gate_open(other),
        rb.with_gate(gate, open).gate_open(gate) == open,
{
    lemma_gate_alone(rb, gate, open, other.bus, other.offset as u32);
    lemma_gate_alone(rb, gate, open, gate.bus, gate.offset as u32);
}

/// The handle of the clock controller. There is one: `take` is the only way
/// to make it.
#[derive(Debug)]
pub struct Rcc {
    claim: crate::guard::Claim,
    rb: RegisterBlock,
}

impl View for Rcc {
    type V = RegisterBlock;

    closed spec fn view(&self) -> RegisterBlock {
        self.rb
    }
}

impl Rcc {
    /// Claims the clock controller. The handle is granted if and only if
    /// the controller was not taken; it starts with the registers as they
    /// are after a reset. A refused call changes nothing.
    pub fn take(guard: &mut OwnershipGuard) -> (rcc: Option<Self>)
        ensures
            rcc is Some <==> !old(guard).is_taken(PeripheralKind::Rcc),
            rcc matches Some(handle) ==> handle@ == RegisterBlock::at_reset(),
            *final(guard) == old(guard).after_acquire(PeripheralKind::Rcc),
            final(guard).is_taken(PeripheralKind::Rcc),
            final(guard).is_taken(PeripheralKind::Adc) == old(guard).is_taken(PeripheralKind::Adc),
            rcc is None ==> *final(guard) == *old(guard),
    {
        match guard.acquire(PeripheralKind::Rcc) {
            Some(claim) => Some(
                Rcc {
                    claim,
                    rb: RegisterBlock { cr: CR_AT_RESET, cfgr: 0, iopenr: 0, apbenr1: 0, apbenr2: 0 },
                },
            ),
            None => None,
        }
    }

    /// The register words that the handle holds.
    pub fn registers(&self) -> (rb: RegisterBlock)
        ensures
            rb == self@,
    {
        self.rb
    }

    /// Replaces the register words that the handle holds, with words read
    /// from the registers.
    pub fn load(&mut self, rb: RegisterBlock)
        ensures
            final(self)@ == rb,
    {
        self.rb = rb;
    }

    /// Selects the system clock source: writes its code to the clock switch
    /// field of the configuration register.
    pub fn set_sys_clock_source(&mut self, clk_source: SystemClockSource)
        ensures
            final(self)@ == (RegisterBlock {
                cfgr: with_field(old(self)@.cfgr, CFGR_SW, CLOCK_FIELD_WIDTH, clk_source.code() as u32),
                ..old(self)@
            }),
            field(final(self)@.cfgr, CFGR_SW, CLOCK_FIELD_WIDTH) == clk_source.code(),
    {
        let code: u8 = u8::from(clk_source);
        proof {
            SystemClockSource::lemma_code_fits(clk_source);
            crate::bits::lemma_field_of_with_field(
                self.rb.cfgr,
                CFGR_SW,
                CLOCK_FIELD_WIDTH,
                code as u32,
            );
        }
        self.rb.cfgr = write_field(self.rb.cfgr, CFGR_SW, CLOCK_FIELD_WIDTH, code as u32);
    }

    /// The clock source that the clock switch status field reports. The
    /// field has three bits: the codes 5 to 7 stand for no source, and for
    /// them the result is nothing.
    pub fn get_sys_clock_source(&self) -> (source: Option<SystemClockSource>)
        ensures
            source == decoded::<SystemClockSource>(self@.clock_switch_status() as u8),
            source is Some <==> self@.clock_switch_status() <= 4,
            source matches Some(s) ==> s.code() == self@.clock_switch_status(),
    {
        let status: u32 = read_field(self.rb.cfgr, CFGR_SWS, CLOCK_FIELD_WIDTH);
        proof {
            lemma_low_masks();
            lemma_decoded::<SystemClockSource>(status as u8);
        }
        SystemClockSource::from_u8(status as u8)
    }

    /// The frequency of the system clock in hertz, where the driver knows
    /// it: `HSE_FREQ` when the status field reports the HSE oscillator, and
    /// nothing for every other source and for a code that stands for none.
    pub fn get_sys_clock_freq(&self) -> (freq: Option<u32>)
        ensures
            freq == (if self@.clock_switch_status() == SystemClockSource::HSE.code() {
                Some(HSE_FREQ)
            } else {
                None
            }),
    {
        match self.get_sys_clock_source() {
            Some(SystemClockSource::HSE) => Some(HSE_FREQ),
            _ => None,
        }
    }

    /// Switches the PLL on or off.
    pub fn set_pll_state(&mut self, state: bool)
        ensures
            final(self)@ == old(self)@.with_control_bit(CR_PLLON, state),
    {
        self.rb.cr = write_bit(self.rb.cr, CR_PLLON, state);
    }

    /// Check if the PLL clock is locked (ready)
    pub fn is_pll_locked(&self) -> (locked: bool)
        ensures
            locked == bit(self@.cr, CR_PLLRDY),
    {
        read_bit(self.rb.cr, CR_PLLRDY)
    }

    /// Switches the HSI48 oscillator on or off.
    pub fn set_hsi48_state(&mut self, state: bool)
        ensures
            final(self)@ == old(self)@.with_control_bit(CR_HSI48ON, state),
    {
        self.rb.cr = write_bit(self.rb.cr, CR_HSI48ON, state);
    }

    /// Reports the ready flag that the driver consults for the HSI48
    /// oscillator: the HSI16 ready flag, bit `CR_HSIRDY`.
    pub fn is_hsi48_ready(&self) -> (ready: bool)
        ensures
            ready == bit(self@.cr, CR_HSIRDY),
    {
        read_bit(self.rb.cr, CR_HSIRDY)
    }

    /// Switches the HSE oscillator on or off.
    pub fn set_hse_state(&mut self, state: bool)
        ensures
            final(self)@ == old(self)@.with_control_bit(CR_HSEON, state),
    {
        self.rb.cr = write_bit(self.rb.cr, CR_HSEON, state);
    }

    /// Whether the HSE oscillator is ready.
    pub fn is_hse_ready(&self) -> (ready: bool)
        ensures
            ready == bit(self@.cr, CR_HSERDY),
    {
        read_bit(self.rb.cr, CR_HSERDY)
    }

    /// Switches the HSI16 oscillator on or off.
    pub fn set_hsi_state(&mut self, state: bool)
        ensures
            final(self)@ == old(self)@.with_control_bit(CR_HSION, state),
    {
        self.rb.cr = write_bit(self.rb.cr, CR_HSION, state);
    }

    /// Whether the HSI16 oscillator is ready.
    pub fn is_hsi_ready(&self) -> (ready: bool)
        ensures
            ready == bit(self@.cr, CR_HSIRDY),
    {
        read_bit(self.rb.cr, CR_HSIRDY)
    }

    /// Switches the clock security system on or off.
    pub fn set_clock_security_system(&mut self, state: bool)
        ensures
            final(self)@ == old(self)@.with_control_bit(CR_CSSON, state),
    {
        self.rb.cr = write_bit(self.rb.cr, CR_CSSON, state);
    }

    /// Bypasses the HSE crystal oscillator with an external clock, or
    /// stops bypassing it.
    pub fn bypass_hse_crystal_oscillator(&mut self, state: bool)
        ensures
            final(self)@ == old(self)@.with_control_bit(CR_HSEBYP, state),
    {
        self.rb.cr = write_bit(self.rb.cr, CR_HSEBYP, state);
    }

    /// Sets the HSI16 division factor: writes its code to the division
    /// field of the control register.
    pub fn set_hsi16_division_factor(&mut self, div: HSI16DivisionFactor)
        ensures
            final(self)@ == (RegisterBlock {
                cr: with_field(old(self)@.cr, CR_HSIDIV, CLOCK_FIELD_WIDTH, div.code() as u32),
                ..old(self)@
            }),
            field(final(self)@.cr, CR_HSIDIV, CLOCK_FIELD_WIDTH) == div.code(),
    {
        let code: u8 = u8::from(div);
        proof {
            HSI16DivisionFactor::lemma_code_fits(div);
            crate::bits::lemma_field_of_with_field(
                self.rb.cr,
                CR_HSIDIV,
                CLOCK_FIELD_WIDTH,
                code as u32,
            );
        }
        self.rb.cr = write_field(self.rb.cr, CR_HSIDIV, CLOCK_FIELD_WIDTH, code as u32);
    }

    /// Sets the bit of `gate` in its gating register to `open`.
    fn switch_gate(&mut self, gate: ClockGate, open: bool)
        requires
            gate.offset < 32,
        ensures
            final(self)@ == old(self)@.with_gate(gate, open),
    {
        match gate.bus {
            Bus::APB1 => {
                self.rb.apbenr1 = write_bit(self.rb.apbenr1, gate.offset as u32, open);
            },
            Bus::APB2 => {
                self.rb.apbenr2 = write_bit(self.rb.apbenr2, gate.offset as u32, open);
            },
            Bus::IOP => {
                self.rb.iopenr = write_bit(self.rb.iopenr, gate.offset as u32, open);
            },
        }
    }

    /// Enables the bus clock of a peripheral: sets the peripheral's bit in
    /// the gating register of its bus.
    pub fn enable_peripheral_clock(&mut self, p: Peripheral)
        ensures
            final(self)@ == old(self)@.with_gate(p.gate(), true),
    {
        self.switch_gate(p.gate(), true);
    }

    /// Disables the bus clock of a peripheral: clears the peripheral's bit
    /// in the gating register of its bus.
    pub fn disable_peripheral_clock(&mut self, p: Peripheral)
        ensures
            final(self)@ == old(self)@.with_gate(p.gate(), false),
    {
        self.switch_gate(p.gate(), false);
    }

    /// Enables the clock of a GPIO port.
    pub fn enable_gpio_port_clock(&mut self, g: GPIOPort)
        ensures
            final(self)@ == old(self)@.with_gate(g.gate(), true),
    {
        self.switch_gate(g.gate(), true);
    }

    /// Disables the clock of a GPIO port.
    pub fn disable_gpio_port_clock(&mut self, g: GPIOPort)
        ensures
            final(self)@ == old(self)@.with_gate(g.gate(), false),
    {
        self.switch_gate(g.gate(), false);
    }
}

} // verus!
