//! General-purpose I/O pins.
//!
//! A [`Pin`] carries its port and its electrical mode in its type. A mode
//! transition consumes the pin and returns it in the new mode, and writes
//! the new configuration to the port's registers, which the caller hands
//! in as a [`RegisterBlock`] of the same port. Only a pin in an output mode
//! can be driven, and only a pin in an output or input mode can have its
//! pull resistors changed.

use crate::bits::{
    bit, field, lemma_bit_of_with_bit, lemma_field_apart, lemma_field_of_with_field,
    lemma_low_masks, read_bit, read_field, with_bit, with_field, write_bit, write_field,
};
use crate::codec::{decoded, lemma_decoded, lemma_decoded_is, RegisterField};
use crate::rcc::GPIOPort;
use core::marker::PhantomData;
use vstd::prelude::*;
use vstd::std_specs::convert::FromSpecImpl;

pub mod gpioa;
pub mod gpiob;
pub mod gpioc;
pub mod gpiod;
pub mod gpioe;
pub mod gpiof;

verus! {

/// Code of the mode field for an input.
pub const MODE_INPUT: u32 = 0;

/// Code of the mode field for a general-purpose output.
pub const MODE_OUTPUT: u32 = 1;

/// Code of the mode field for an alternate function.
pub const MODE_ALTERNATE: u32 = 2;

/// Code of the mode field for analog mode.
pub const MODE_ANALOG: u32 = 3;

/// Code of the pull field for neither pull-up nor pull-down.
pub const PULL_FLOATING: u32 = 0;

/// Code of the pull field for a pull-up.
pub const PULL_UP: u32 = 1;

/// Code of the pull field for a pull-down.
pub const PULL_DOWN: u32 = 2;

/// Pins in a port.
pub const PINS: u8 = 16;

/// Analog mode (type state)
pub struct Analog;

/// Alternate Function mode (type state)
pub struct AlternateFunction;

/// Output Push Pull mode (type state)
pub struct PushPull;

/// Floating mode (type state)
pub struct Floating;

/// Pull Up mode (type state)
pub struct PullUp;

/// Pull Down mode (type state)
pub struct PullDown;

/// Opendrain mode (type state)
pub struct OpenDrain;

/// Input mode (type state)
pub struct Input<MODE> {
    _mode: PhantomData<MODE>,
}

/// Output mode (type state)
pub struct Output<MODE> {
    _mode: PhantomData<MODE>,
}

/// Port A (type of a pin's port)
pub struct PortA;

/// Port B (type of a pin's port)
pub struct PortB;

/// Port C (type of a pin's port)
pub struct PortC;

/// Port D (type of a pin's port)
pub struct PortD;

/// Port E (type of a pin's port)
pub struct PortE;

/// Port F (type of a pin's port)
pub struct PortF;

/// The mode of a pin, as a value.
#[derive(Clone, Copy, Debug, PartialEq, Eq, Structural)]
pub enum PinMode {
    Analog,
    AlternateFunction,
    InputFloating,
    InputPullUp,
    InputPullDown,
    OutputPushPull,
    OutputOpenDrain,
}

/// A type that stands for a port.
pub trait Port {
    /// The port that the type stands for.
    spec fn spec_port() -> GPIOPort;

    /// The port that the type stands for.
    fn port() -> (port: GPIOPort)
        ensures
            port == Self::spec_port(),
    ;
}

/// A type that stands for a pin mode.
pub trait Mode {
    /// The mode that the type stands for.
    spec fn spec_mode() -> PinMode;

    /// The mode that the type stands for.
    fn mode() -> (mode: PinMode)
        ensures
            mode == Self::spec_mode(),
    ;
}

/// GPIO alternate functions
#[derive(Clone, Copy, Debug, PartialEq, Eq, Structural)]
pub enum AlternateFunctionList {
    /// Alternate function 0
    AF0,
    /// Alternate function 1
    AF1,
    /// Alternate function 2
    AF2,
    /// Alternate function 3
    AF3,
    /// Alternate function 4
    AF4,
    /// Alternate function 5
    AF5,
    /// Alternate function 6
    AF6,
    /// Alternate function 7
    AF7,
}

impl RegisterField for AlternateFunctionList {
    open spec fn code(self) -> u8 {
        match self {
            AlternateFunctionList::AF0 => 0,
            AlternateFunctionList::AF1 => 1,
            AlternateFunctionList::AF2 => 2,
            AlternateFunctionList::AF3 => 3,
            AlternateFunctionList::AF4 => 4,
            AlternateFunctionList::AF5 => 5,
            AlternateFunctionList::AF6 => 6,
            AlternateFunctionList::AF7 => 7,
        }
    }

    open spec fn declared(code: u8) -> bool {
        code <= 7
    }

    open spec fn width() -> u32 {
        4
    }

    proof fn lemma_code_injective(a: Self, b: Self) {
    }

    proof fn lemma_declared(code: u8) {
        assert(AlternateFunctionList::AF0.code() == 0);
        assert(AlternateFunctionList::AF1.code() == 1);
        assert(AlternateFunctionList::AF2.code() == 2);
        assert(AlternateFunctionList::AF3.code() == 3);
        assert(AlternateFunctionList::AF4.code() == 4);
        assert(AlternateFunctionList::AF5.code() == 5);
        assert(AlternateFunctionList::AF6.code() == 6);
        assert(AlternateFunctionList::AF7.code() == 7);
    }

    proof fn lemma_code_fits(v: Self) {
        lemma_low_masks();
    }
}

impl From<AlternateFunctionList> for u8 {
    fn from(value: AlternateFunctionList) -> (code: u8)
        ensures
            code == value.code(),
    {
        match value {
            AlternateFunctionList::AF0 => 0,
            AlternateFunctionList::AF1 => 1,
            AlternateFunctionList::AF2 => 2,
            AlternateFunctionList::AF3 => 3,
            AlternateFunctionList::AF4 => 4,
            AlternateFunctionList::AF5 => 5,
            AlternateFunctionList::AF6 => 6,
            AlternateFunctionList::AF7 => 7,
        }
    }
}

impl FromSpecImpl<AlternateFunctionList> for u8 {
    open spec fn obeys_from_spec() -> bool {
        true
    }

    open spec fn from_spec(v: AlternateFunctionList) -> u8 {
        v.code()
    }
}

impl AlternateFunctionList {
    /// Decodes an alternate function; nothing for a code above 7.
    pub fn from_u8(value: u8) -> (variant: Option<Self>)
        ensures
            variant == decoded::<Self>(value),
            variant is Some <==> Self::declared(value),
            variant matches Some(v) ==> v.code() == value,
    {
        let variant = match value {
            0 => Some(AlternateFunctionList::AF0),
            1 => Some(AlternateFunctionList::AF1),
            2 => Some(AlternateFunctionList::AF2),
            3 => Some(AlternateFunctionList::AF3),
            4 => Some(AlternateFunctionList::AF4),
            5 => Some(AlternateFunctionList::AF5),
            6 => Some(AlternateFunctionList::AF6),
            7 => Some(AlternateFunctionList::AF7),
            _ => None,
        };
        proof {
            lemma_decoded::<Self>(value);
            if let Some(v) = variant {
                lemma_decoded_is(value, v);
            }
        }
        variant
    }
}

impl Port for PortA {
    open spec fn spec_port() -> GPIOPort {
        GPIOPort::GPIOA
    }

    fn port() -> (port: GPIOPort) {
        GPIOPort::GPIOA
    }
}

impl Port for PortB {
    open spec fn spec_port() -> GPIOPort {
        GPIOPort::GPIOB
    }

    fn port() -> (port: GPIOPort) {
        GPIOPort::GPIOB
    }
}

impl Port for PortC {
    open spec fn spec_port() -> GPIOPort {
        GPIOPort::GPIOC
    }

    fn port() -> (port: GPIOPort) {
        GPIOPort::GPIOC
    }
}

impl Port for PortD {
    open spec fn spec_port() -> GPIOPort {
        GPIOPort::GPIOD
    }

    fn port() -> (port: GPIOPort) {
        GPIOPort::GPIOD
    }
}

impl Port for PortE {
    open spec fn spec_port() -> GPIOPort {
        GPIOPort::GPIOE
    }

    fn port() -> (port: GPIOPort) {
        GPIOPort::GPIOE
    }
}

impl Port for PortF {
    open spec fn spec_port() -> GPIOPort {
        GPIOPort::GPIOF
    }

    fn port() -> (port: GPIOPort) {
        GPIOPort::GPIOF
    }
}

impl Mode for Analog {
    open spec fn spec_mode() -> PinMode {
        PinMode::Analog
    }

    fn mode() -> (mode: PinMode) {
        PinMode::Analog
    }
}

impl Mode for AlternateFunction {
    open spec fn spec_mode() -> PinMode {
        PinMode::AlternateFunction
    }

    fn mode() -> (mode: PinMode) {
        PinMode::AlternateFunction
    }
}

impl Mode for Input<Floating> {
    open spec fn spec_mode() -> PinMode {
        PinMode::InputFloating
    }

    fn mode() -> (mode: PinMode) {
        PinMode::InputFloating
    }
}

impl Mode for Input<PullUp> {
    open spec fn spec_mode() -> PinMode {
        PinMode::InputPullUp
    }

    fn mode() -> (mode: PinMode) {
        PinMode::InputPullUp
    }
}

impl Mode for Input<PullDown> {
    open spec fn spec_mode() -> PinMode {
        PinMode::InputPullDown
    }

    fn mode() -> (mode: PinMode) {
        PinMode::InputPullDown
    }
}

impl Mode for Output<PushPull> {
    open spec fn spec_mode() -> PinMode {
        PinMode::OutputPushPull
    }

    fn mode() -> (mode: PinMode) {
        PinMode::OutputPushPull
    }
}

impl Mode for Output<OpenDrain> {
    open spec fn spec_mode() -> PinMode {
        PinMode::OutputOpenDrain
    }

    fn mode() -> (mode: PinMode) {
        PinMode::OutputOpenDrain
    }
}

/// The words of a port's registers that the driver uses.
pub struct RegisterBlock<PORT> {
    /// Mode register: two bits for each pin
    pub moder: u32,
    /// Output type register: one bit for each pin
    pub otyper: u32,
    /// Pull-up/pull-down register: two bits for each pin
    pub pupdr: u32,
    /// Alternate function low register: four bits for each of the pins 0 to 7
    pub afrl: u32,
    /// Alternate function high register: four bits for each of the pins 8 to 15
    pub afrh: u32,
    /// Bit set/reset register, which is only written: the last word written
    pub bsrr: u32,
    /// The port that the words belong to
    pub port: PhantomData<PORT>,
}

/// Offset of the two-bit field of `pin` in the mode and pull registers.
pub open spec fn pair_offset(pin: u8) -> u32 {
    (2 * pin) as u32
}

/// Offset of the four-bit field of `pin` in its alternate function register.
pub open spec fn nibble_offset(pin: u8) -> u32 {
    if pin < 8 {
        (4 * pin) as u32
    } else {
        (4 * (pin - 8)) as u32
    }
}

/// The word that sets the output of `pin` when written to the bit set/reset
/// register.
pub open spec fn set_command(pin: u8) -> u32 {
    with_bit(0, pin as u32, true)
}

/// The word that clears the output of `pin` when written to the bit
/// set/reset register.
pub open spec fn reset_command(pin: u8) -> u32 {
    with_bit(0, (pin + 16) as u32, true)
}

impl<PORT> RegisterBlock<PORT> {
    /// The code in the mode field of `pin`.
    pub open spec fn spec_mode_code(&self, pin: u8) -> u32 {
        field(self.moder, pair_offset(pin), 2)
    }

    /// Whether the output type bit of `pin` is set: whether the output is
    /// open-drain rather than push-pull.
    pub open spec fn spec_is_open_drain(&self, pin: u8) -> bool {
        bit(self.otyper, pin as u32)
    }

    /// The code in the pull field of `pin`.
    pub open spec fn spec_pull_code(&self, pin: u8) -> u32 {
        field(self.pupdr, pair_offset(pin), 2)
    }

    /// The code in the alternate function field of `pin`.
    pub open spec fn spec_function_code(&self, pin: u8) -> u32 {
        if pin < 8 {
            field(self.afrl, nibble_offset(pin), 4)
        } else {
            field(self.afrh, nibble_offset(pin), 4)
        }
    }

    /// The registers with `code` in the mode field of `pin`.
    pub open spec fn with_mode(self, pin: u8, code: u32) -> Self {
        RegisterBlock { moder: with_field(self.moder, pair_offset(pin), 2, code), ..self }
    }

    /// The registers with the output type bit of `pin` set to `open_drain`.
    pub open spec fn with_output_type(self, pin: u8, open_drain: bool) -> Self {
        RegisterBlock { otyper: with_bit(self.otyper, pin as u32, open_drain), ..self }
    }

    /// The registers with `code` in the pull field of `pin`.
    pub open spec fn with_pull(self, pin: u8, code: u32) -> Self {
        RegisterBlock { pupdr: with_field(self.pupdr, pair_offset(pin), 2, code), ..self }
    }

    /// The registers with `code` in the alternate function field of `pin`:
    /// in the low register for a pin below 8, in the high register for a
    /// pin from 8 on.
    pub open spec fn with_function(self, pin: u8, code: u32) -> Self {
        if pin < 8 {
            RegisterBlock { afrl: with_field(self.afrl, nibble_offset(pin), 4, code), ..self }
        } else {
            RegisterBlock { afrh: with_field(self.afrh, nibble_offset(pin), 4, code), ..self }
        }
    }

    /// The registers with `word` written to the bit set/reset register.
    pub open spec fn with_command(self, word: u32) -> Self {
        RegisterBlock { bsrr: word, ..self }
    }

    /// Whether two pins have the same configuration in `self` and `other`:
    /// the same mode, output type, pull and alternate function.
    pub open spec fn same_pin(self, other: Self, pin: u8) -> bool {
        &&& self.spec_mode_code(pin) == other.spec_mode_code(pin)
        &&& self.spec_is_open_drain(pin) == other.spec_is_open_drain(pin)
        &&& self.spec_pull_code(pin) == other.spec_pull_code(pin)
        &&& self.spec_function_code(pin) == other.spec_function_code(pin)
    }

    /// The registers of a port, from the words read from them. Nothing has
    /// been written to the bit set/reset register.
    pub fn new(moder: u32, otyper: u32, pupdr: u32, afrl: u32, afrh: u32) -> (rb: Self)
        ensures
            rb.moder == moder,
            rb.otyper == otyper,
            rb.pupdr == pupdr,
            rb.afrl == afrl,
            rb.afrh == afrh,
            rb.bsrr == 0,
    {
        RegisterBlock { moder, otyper, pupdr, afrl, afrh, bsrr: 0, port: PhantomData }
    }

    /// The code in the mode field of `pin`.
    #[verifier::when_used_as_spec(spec_mode_code)]
    pub fn mode_code(&self, pin: u8) -> (code: u32)
        requires
            pin < PINS,
        ensures
            code == self.spec_mode_code(pin),
            code <= 3,
    {
        proof {
            lemma_low_masks();
        }
        read_field(self.moder, 2 * (pin as u32), 2)
    }

    /// Whether the output of `pin` is open-drain rather than push-pull.
    #[verifier::when_used_as_spec(spec_is_open_drain)]
    pub fn is_open_drain(&self, pin: u8) -> (open_drain: bool)
        requires
            pin < PINS,
        ensures
            open_drain == self.spec_is_open_drain(pin),
    {
        read_bit(self.otyper, pin as u32)
    }

    /// The code in the pull field of `pin`.
    #[verifier::when_used_as_spec(spec_pull_code)]
    pub fn pull_code(&self, pin: u8) -> (code: u32)
        requires
            pin < PINS,
        ensures
            code == self.spec_pull_code(pin),
            code <= 3,
    {
        proof {
            lemma_low_masks();
        }
        read_field(self.pupdr, 2 * (pin as u32), 2)
    }

    /// The code in the alternate function field of `pin`.
    #[verifier::when_used_as_spec(spec_function_code)]
    pub fn function_code(&self, pin: u8) -> (code: u32)
        requires
            pin < PINS,
        ensures
            code == self.spec_function_code(pin),
            code <= 15,
    {
        proof {
            lemma_low_masks();
        }
        if pin < 8 {
            read_field(self.afrl, 4 * (pin as u32), 4)
        } else {
            read_field(self.afrh, 4 * ((pin - 8) as u32), 4)
        }
    }

    /// Writing the mode of a pin: that pin's mode field holds the code, and
    /// nothing else of any pin's configuration changes.
    pub proof fn lemma_with_mode(self, pin: u8, code: u32, other: u8)
        requires
            pin < PINS,
            other < PINS,
            code <= 3,
        ensures
            self.with_mode(pin, code).mode_code(pin) == code,
            other != pin ==> self.with_mode(pin, code).same_pin(self, other),
            self.with_mode(pin, code).is_open_drain(pin) == self.is_open_drain(pin),
            self.with_mode(pin, code).pull_code(pin) == self.pull_code(pin),
            self.with_mode(pin, code).function_code(pin) == self.function_code(pin),
    {
        lemma_low_masks();
        lemma_field_of_with_field(self.moder, pair_offset(pin), 2, code);
        if other != pin {
            lemma_field_apart(self.moder, pair_offset(pin), 2, code, pair_offset(other), 2);
        }
    }

    /// Writing the output type of a pin: that pin's bit holds the value,
    /// and nothing else of any pin's configuration changes.
    pub proof fn lemma_with_output_type(self, pin: u8, open_drain: bool, other: u8)
        requires
            pin < PINS,
            other < PINS,
        ensures
            self.with_output_type(pin, open_drain).is_open_drain(pin) == open_drain,
            other != pin ==> self.with_output_type(pin, open_drain).same_pin(self, other),
            self.with_output_type(pin, open_drain).mode_code(pin) == self.mode_code(pin),
            self.with_output_type(pin, open_drain).pull_code(pin) == self.pull_code(pin),
            self.with_output_type(pin, open_drain).function_code(pin) == self.function_code(pin),
    {
        lemma_bit_of_with_bit(self.otyper, pin as u32, open_drain, pin as u32);
        lemma_bit_of_with_bit(self.otyper, pin as u32, open_drain, other as u32);
    }

    /// Writing the pull of a pin: that pin's pull field holds the code, and
    /// nothing else of any pin's configuration changes.
    pub proof fn lemma_with_pull(self, pin: u8, code: u32, other: u8)
        requires
            pin < PINS,
            other < PINS,
            code <= 3,
        ensures
            self.with_pull(pin, code).pull_code(pin) == code,
            other != pin ==> self.with_pull(pin, code).same_pin(self, other),
            self.with_pull(pin, code).mode_code(pin) == self.mode_code(pin),
            self.with_pull(pin, code).is_open_drain(pin) == self.is_open_drain(pin),
            self.with_pull(pin, code).function_code(pin) == self.function_code(pin),
    {
        lemma_low_masks();
        lemma_field_of_with_field(self.pupdr, pair_offset(pin), 2, code);
        if other != pin {
            lemma_field_apart(self.pupdr, pair_offset(pin), 2, code, pair_offset(other), 2);
        }
    }

    /// Writing the alternate function of a pin: that pin's field holds the
    /// code, and nothing else of any pin's configuration changes.
    pub proof fn lemma_with_function(self, pin: u8, code: u32, other: u8)
        requires
            pin < PINS,
            other < PINS,
            code <= 15,
        ensures
            self.with_function(pin, code).function_code(pin) == code,
            other != pin ==> self.with_function(pin, code).same_pin(self, other),
            self.with_function(pin, code).mode_code(pin) == self.mode_code(pin),
            self.with_function(pin, code).is_open_drain(pin) == self.is_open_drain(pin),
            self.with_function(pin, code).pull_code(pin) == self.pull_code(pin),
    {
        lemma_low_masks();
        if pin < 8 {
            lemma_field_of_with_field(self.afrl, nibble_offset(pin), 4, code);
            if other != pin && other < 8 {
                lemma_field_apart(self.afrl, nibble_offset(pin), 4, code, nibble_offset(other), 4);
            }
        } else {
            lemma_field_of_with_field(self.afrh, nibble_offset(pin), 4, code);
            if other != pin && other >= 8 {
                lemma_field_apart(self.afrh, nibble_offset(pin), 4, code, nibble_offset(other), 4);
            }
        }
    }
}

/// What a pin is: its port, its index in the port, and its mode.
pub struct PinState {
    pub port: GPIOPort,
    pub index: u8,
    pub mode: PinMode,
}

/// The mode transitions of a pin.
pub enum Transition {
    IntoAnalog,
    IntoOutputPushPull,
    IntoOutputOpenDrain,
    IntoInput,
    IntoAlternateFunction(AlternateFunctionList),
}

impl Transition {
    /// The mode that the transition leads to.
    pub open spec fn target(self) -> PinMode {
        match self {
            Transition::IntoAnalog => PinMode::Analog,
            Transition::IntoOutputPushPull => PinMode::OutputPushPull,
            Transition::IntoOutputOpenDrain => PinMode::OutputOpenDrain,
            Transition::IntoInput => PinMode::InputFloating,
            Transition::IntoAlternateFunction(_) => PinMode::AlternateFunction,
        }
    }
}

impl PinState {
    /// The pin after a transition: the same pin, in the transition's mode.
    pub open spec fn after(self, transition: Transition) -> PinState {
        PinState { port: self.port, index: self.index, mode: transition.target() }
    }

    /// The pin after the transitions of `transitions`, in order.
    pub open spec fn after_all(self, transitions: Seq<Transition>) -> PinState
        decreases transitions.len(),
    {
        if transitions.len() == 0 {
            self
        } else {
            self.after_all(transitions.drop_last()).after(transitions.last())
        }
    }

    /// Pin identity. Whatever transitions a pin goes through, it stays the
    /// pin of the same port and index; its mode is that of the last
    /// transition.
    pub proof fn lemma_identity_kept(self, transitions: Seq<Transition>)
        ensures
            self.after_all(transitions).port == self.port,
            self.after_all(transitions).index == self.index,
            self.after_all(transitions).mode == (if transitions.len() == 0 {
                self.mode
            } else {
                transitions.last().target()
            }),
        decreases transitions.len(),
    {
        if transitions.len() > 0 {
            self.lemma_identity_kept(transitions.drop_last());
        }
    }
}

impl<PORT> RegisterBlock<PORT> {
    /// The registers after `transition` of the pin `pin`: the writes that
    /// realise the new mode. An output or an input starts floating; an
    /// alternate function is selected in the pin's four-bit field.
    pub open spec fn after(self, pin: u8, transition: Transition) -> Self {
        match transition {
            Transition::IntoAnalog => self.with_mode(pin, MODE_ANALOG),
            Transition::IntoOutputPushPull => self.with_mode(pin, MODE_OUTPUT).with_output_type(
                pin,
                false,
            ).with_pull(pin, PULL_FLOATING),
            Transition::IntoOutputOpenDrain => self.with_mode(pin, MODE_OUTPUT).with_output_type(
                pin,
                true,
            ).with_pull(pin, PULL_FLOATING),
            Transition::IntoInput => self.with_mode(pin, MODE_INPUT).with_pull(pin, PULL_FLOATING),
            Transition::IntoAlternateFunction(function) => self.with_function(
                pin,
                function.code() as u32,
            ),
        }
    }

    /// The registers after the transitions of `transitions` of the pin
    /// `pin`, in order.
    pub open spec fn after_all(self, pin: u8, transitions: Seq<Transition>) -> Self
        decreases transitions.len(),
    {
        if transitions.len() == 0 {
            self
        } else {
            self.after_all(pin, transitions.drop_last()).after(pin, transitions.last())
        }
    }

    /// A transition of one pin leaves the configuration of every other pin
    /// of the port as it was, and the bit set/reset register too.
    pub proof fn lemma_transition_alone(self, pin: u8, transition: Transition, other: u8)
        requires
            pin < PINS,
            other < PINS,
            other != pin,
        ensures
            self.after(pin, transition).same_pin(self, other),
            self.after(pin, transition).bsrr == self.bsrr,
    {
        match transition {
            Transition::IntoAnalog => {
                self.lemma_with_mode(pin, MODE_ANALOG, other);
            },
            Transition::IntoOutputPushPull => {
                let a = self.with_mode(pin, MODE_OUTPUT);
                let b = a.with_output_type(pin, false);
                self.lemma_with_mode(pin, MODE_OUTPUT, other);
                a.lemma_with_output_type(pin, false, other);
                b.lemma_with_pull(pin, PULL_FLOATING, other);
            },
            Transition::IntoOutputOpenDrain => {
                let a = self.with_mode(pin, MODE_OUTPUT);
                let b = a.with_output_type(pin, true);
                self.lemma_with_mode(pin, MODE_OUTPUT, other);
                a.lemma_with_output_type(pin, true, other);
                b.lemma_with_pull(pin, PULL_FLOATING, other);
            },
            Transition::IntoInput => {
                let a = self.with_mode(pin, MODE_INPUT);
                self.lemma_with_mode(pin, MODE_INPUT, other);
                a.lemma_with_pull(pin, PULL_FLOATING, other);
            },
            Transition::IntoAlternateFunction(function) => {
                self.lemma_with_function(pin, function.code() as u32, other);
            },
        }
    }

    /// Whatever transitions one pin goes through, the configuration of
    /// every other pin of the port stays as it was.
    pub proof fn lemma_journey_alone(self, pin: u8, transitions: Seq<Transition>, other: u8)
        requires
            pin < PINS,
            other < PINS,
            other != pin,
        ensures
            self.after_all(pin, transitions).same_pin(self, other),
        decreases transitions.len(),
    {
        if transitions.len() > 0 {
            let before = self.after_all(pin, transitions.drop_last());
            self.lemma_journey_alone(pin, transitions.drop_last(), other);
            before.lemma_transition_alone(pin, transitions.last(), other);
        }
    }

    /// What a transition writes for its own pin: the mode field of an
    /// analog pin, output or input holds the code of that mode, an output's
    /// type bit tells push-pull from open-drain, an output or input
    /// floats, and an alternate function's field holds the function's code.
    pub proof fn lemma_transition_written(self, pin: u8, transition: Transition)
        requires
            pin < PINS,
        ensures
            transition is IntoAnalog ==> self.after(pin, transition).mode_code(pin) == MODE_ANALOG,
            transition is IntoInput ==> self.after(pin, transition).mode_code(pin) == MODE_INPUT
                && self.after(pin, transition).pull_code(pin) == PULL_FLOATING,
            transition is IntoOutputPushPull ==> self.after(pin, transition).mode_code(pin)
                == MODE_OUTPUT && !self.after(pin, transition).is_open_drain(pin) && self.after(
                pin,
                transition,
            ).pull_code(pin) == PULL_FLOATING,
            transition is IntoOutputOpenDrain ==> self.after(pin, transition).mode_code(pin)
                == MODE_OUTPUT && self.after(pin, transition).is_open_drain(pin) && self.after(
                pin,
                transition,
            ).pull_code(pin) == PULL_FLOATING,
            transition matches Transition::IntoAlternateFunction(function) ==> self.after(
                pin,
                transition,
            ).function_code(pin) == function.code() && self.after(pin, transition).mode_code(pin)
                == self.mode_code(pin),
    {
        match transition {
            Transition::IntoAnalog => {
                self.lemma_with_mode(pin, MODE_ANALOG, pin);
            },
            Transition::IntoOutputPushPull => {
                let a = self.with_mode(pin, MODE_OUTPUT);
                let b = a.with_output_type(pin, false);
                self.lemma_with_mode(pin, MODE_OUTPUT, pin);
                a.lemma_with_output_type(pin, false, pin);
                b.lemma_with_pull(pin, PULL_FLOATING, pin);
            },
            Transition::IntoOutputOpenDrain => {
                let a = self.with_mode(pin, MODE_OUTPUT);
                let b = a.with_output_type(pin, true);
                self.lemma_with_mode(pin, MODE_OUTPUT, pin);
                a.lemma_with_output_type(pin, true, pin);
                b.lemma_with_pull(pin, PULL_FLOATING, pin);
            },
            Transition::IntoInput => {
                let a = self.with_mode(pin, MODE_INPUT);
                self.lemma_with_mode(pin, MODE_INPUT, pin);
                a.lemma_with_pull(pin, PULL_FLOATING, pin);
            },
            Transition::IntoAlternateFunction(function) => {
                self.lemma_with_function(pin, function.code() as u32, pin);
            },
        }
    }
}

/// A pin of the port `PORT` in the mode `MODE`. A pin is in analog mode
/// after a reset.
pub struct Pin<PORT, MODE = Analog> {
    pin: u8,
    _port: PhantomData<PORT>,
    _mode: PhantomData<MODE>,
}

impl<PORT, MODE> Pin<PORT, MODE> {
    #[verifier::type_invariant]
    spec fn in_port(self) -> bool {
        self.pin < PINS
    }

    /// The index of the pin in its port.
    pub closed spec fn spec_index(&self) -> u8 {
        self.pin
    }

    /// The index of the pin in its port, from 0 to 15.
    #[verifier::when_used_as_spec(spec_index)]
    pub fn index(&self) -> (index: u8)
        ensures
            index == self.spec_index(),
            index < PINS,
    {
        proof {
            use_type_invariant(self);
        }
        self.pin
    }
}

impl<PORT> Pin<PORT, Analog> {
    /// The pin `pin` of a port whose pins are being taken.
    pub(crate) fn new(pin: u8) -> (made: Self)
        requires
            pin < PINS,
        ensures
            made.index() == pin,
    {
        Pin { pin, _port: PhantomData, _mode: PhantomData }
    }
}

impl<PORT: Port, MODE: Mode> View for Pin<PORT, MODE> {
    type V = PinState;

    open spec fn view(&self) -> PinState {
        PinState { port: PORT::spec_port(), index: self.spec_index(), mode: MODE::spec_mode() }
    }
}

impl<PORT: Port, MODE: Mode> Pin<PORT, MODE> {
    /// The port of the pin.
    pub fn port(&self) -> (port: GPIOPort)
        ensures
            port == self@.port,
    {
        PORT::port()
    }

    /// The mode of the pin.
    pub fn mode(&self) -> (mode: PinMode)
        ensures
            mode == self@.mode,
    {
        MODE::mode()
    }

    /// Configure the pin as analog
    pub fn into_analog(self, regs: &mut RegisterBlock<PORT>) -> (pin: Pin<PORT, Analog>)
        ensures
            pin@ == self@.after(Transition::IntoAnalog),
            *final(regs) == old(regs).after(self.index(), Transition::IntoAnalog),
    {
        let index = self.index();
        regs.moder = write_field(regs.moder, 2 * (index as u32), 2, MODE_ANALOG);
        Pin { pin: index, _port: PhantomData, _mode: PhantomData }
    }

    /// Configure the pin as output push-pull
    pub fn into_output_push_pull(self, regs: &mut RegisterBlock<PORT>) -> (pin: Pin<
        PORT,
        Output<PushPull>,
    >)
        ensures
            pin@ == self@.after(Transition::IntoOutputPushPull),
            *final(regs) == old(regs).after(self.index(), Transition::IntoOutputPushPull),
    {
        let index = self.index();
        regs.moder = write_field(regs.moder, 2 * (index as u32), 2, MODE_OUTPUT);
        regs.otyper = write_bit(regs.otyper, index as u32, false);
        regs.pupdr = write_field(regs.pupdr, 2 * (index as u32), 2, PULL_FLOATING);
        Pin { pin: index, _port: PhantomData, _mode: PhantomData }
    }

    /// Configure the pin as output opendrain
    pub fn into_output_open_drain(self, regs: &mut RegisterBlock<PORT>) -> (pin: Pin<
        PORT,
        Output<OpenDrain>,
    >)
        ensures
            pin@ == self@.after(Transition::IntoOutputOpenDrain),
            *final(regs) == old(regs).after(self.index(), Transition::IntoOutputOpenDrain),
    {
        let index = self.index();
        regs.moder = write_field(regs.moder, 2 * (index as u32), 2, MODE_OUTPUT);
        regs.otyper = write_bit(regs.otyper, index as u32, true);
        regs.pupdr = write_field(regs.pupdr, 2 * (index as u32), 2, PULL_FLOATING);
        Pin { pin: index, _port: PhantomData, _mode: PhantomData }
    }

    /// Configure the pin as input
    pub fn into_input(self, regs: &mut RegisterBlock<PORT>) -> (pin: Pin<PORT, Input<Floating>>)
        ensures
            pin@ == self@.after(Transition::IntoInput),
            *final(regs) == old(regs).after(self.index(), Transition::IntoInput),
    {
        let index = self.index();
        regs.moder = write_field(regs.moder, 2 * (index as u32), 2, MODE_INPUT);
        regs.pupdr = write_field(regs.pupdr, 2 * (index as u32), 2, PULL_FLOATING);
        Pin { pin: index, _port: PhantomData, _mode: PhantomData }
    }

    /// Configure the pin for an alternate function: selects the function in
    /// the pin's field of the low alternate function register for a pin
    /// below 8, and of the high one for a pin from 8 on.
    pub fn into_alternate_function(
        self,
        regs: &mut RegisterBlock<PORT>,
        function: AlternateFunctionList,
    ) -> (pin: Pin<PORT, AlternateFunction>)
        ensures
            pin@ == self@.after(Transition::IntoAlternateFunction(function)),
            *final(regs) == old(regs).after(
                self.index(),
                Transition::IntoAlternateFunction(function),
            ),
    {
        let index = self.index();
        let code: u8 = u8::from(function);
        if index < 8 {
            regs.afrl = write_field(regs.afrl, 4 * (index as u32), 4, code as u32);
        } else {
            regs.afrh = write_field(regs.afrh, 4 * ((index - 8) as u32), 4, code as u32);
        }
        Pin { pin: index, _port: PhantomData, _mode: PhantomData }
    }
}

impl<PORT, MODE> Pin<PORT, Output<MODE>> {
    /// Set the output pin: leaves in the bit set/reset register the word
    /// that sets it.
    pub fn set_high(&mut self, regs: &mut RegisterBlock<PORT>)
        ensures
            *final(self) == *old(self),
            *final(regs) == old(regs).with_command(set_command(old(self).index())),
    {
        let index = self.index();
        regs.bsrr = write_bit(0, index as u32, true);
    }

    /// Clear the output pin: leaves in the bit set/reset register the word
    /// that clears it.
    pub fn set_low(&mut self, regs: &mut RegisterBlock<PORT>)
        ensures
            *final(self) == *old(self),
            *final(regs) == old(regs).with_command(reset_command(old(self).index())),
    {
        let index = self.index();
        regs.bsrr = write_bit(0, (index as u32) + 16, true);
    }

    /// Configure the output pin as pulled up
    pub fn pull_up(&mut self, regs: &mut RegisterBlock<PORT>)
        ensures
            *final(self) == *old(self),
            *final(regs) == old(regs).with_pull(old(self).index(), PULL_UP),
    {
        let index = self.index();
        regs.pupdr = write_field(regs.pupdr, 2 * (index as u32), 2, PULL_UP);
    }

    /// Configure the output pin as pulled down
    pub fn pull_down(&mut self, regs: &mut RegisterBlock<PORT>)
        ensures
            *final(self) == *old(self),
            *final(regs) == old(regs).with_pull(old(self).index(), PULL_DOWN),
    {
        let index = self.index();
        regs.pupdr = write_field(regs.pupdr, 2 * (index as u32), 2, PULL_DOWN);
    }

    /// Configure the output pin as floating
    pub fn floating(&mut self, regs: &mut RegisterBlock<PORT>)
        ensures
            *final(self) == *old(self),
            *final(regs) == old(regs).with_pull(old(self).index(), PULL_FLOATING),
    {
        let index = self.index();
        regs.pupdr = write_field(regs.pupdr, 2 * (index as u32), 2, PULL_FLOATING);
    }
}

impl<PORT, MODE> Pin<PORT, Input<MODE>> {
    /// Configure the input pin as pulled up
    pub fn pull_up(&mut self, regs: &mut RegisterBlock<PORT>)
        ensures
            *final(self) == *old(self),
            *final(regs) == old(regs).with_pull(old(self).index(), PULL_UP),
    {
        let index = self.index();
        regs.pupdr = write_field(regs.pupdr, 2 * (index as u32), 2, PULL_UP);
    }

    /// Configure the input pin as pulled down
    pub fn pull_down(&mut self, regs: &mut RegisterBlock<PORT>)
        ensures
            *final(self) == *old(self),
            *final(regs) == old(regs).with_pull(old(self).index(), PULL_DOWN),
    {
        let index = self.index();
        regs.pupdr = write_field(regs.pupdr, 2 * (index as u32), 2, PULL_DOWN);
    }

    /// Configure the input pin as floating
    pub fn floating(&mut self, regs: &mut RegisterBlock<PORT>)
        ensures
            *final(self) == *old(self),
            *final(regs) == old(regs).with_pull(old(self).index(), PULL_FLOATING),
    {
        let index = self.index();
        regs.pupdr = write_field(regs.pupdr, 2 * (index as u32), 2, PULL_FLOATING);
    }
}

} // verus!
