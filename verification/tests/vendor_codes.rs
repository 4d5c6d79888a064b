use stm32g0::stm32g0b1::adc::cfgr1::{ALIGN, EXTEN, RES};
use stm32g0::stm32g0b1::adc::cfgr2::CKMODE;
use stm32g0::stm32g0b1::adc::smpr::{SMP1, SMPSEL0};
use stm32g0::stm32g0b1::gpioa::afrl::ALTERNATE_FUNCTION;
use stm32g0::stm32g0b1::gpioa::moder::MODE;
use stm32g0::stm32g0b1::gpioa::otyper::OUTPUT_TYPE;
use stm32g0::stm32g0b1::gpioa::pupdr::PULL;
use stm32g0::stm32g0b1::rcc::cfgr::SW;
use stm32g0::stm32g0b1::rcc::cr::HSIDIV;
use stm32g0_ll_drivers::adc::{
    ClockMode, DataAlignment, ExternalTriggerMode, Resolution, SamplingTime,
    SamplingTimeCommonGroup,
};
use stm32g0_ll_drivers::gpio::{
    AlternateFunctionList, MODE_ALTERNATE, MODE_ANALOG, MODE_INPUT, MODE_OUTPUT, PULL_DOWN,
    PULL_FLOATING, PULL_UP,
};
use stm32g0_ll_drivers::rcc::{HSI16DivisionFactor, SystemClockSource};

#[test]
fn pin_mode_codes_are_the_vendor_codes() {
    assert_eq!(MODE_INPUT, u32::from(u8::from(MODE::Input)));
    assert_eq!(MODE_OUTPUT, u32::from(u8::from(MODE::Output)));
    assert_eq!(MODE_ALTERNATE, u32::from(u8::from(MODE::Alternate)));
    assert_eq!(MODE_ANALOG, u32::from(u8::from(MODE::Analog)));
}

#[test]
fn pull_codes_are_the_vendor_codes() {
    assert_eq!(PULL_FLOATING, u32::from(u8::from(PULL::Floating)));
    assert_eq!(PULL_UP, u32::from(u8::from(PULL::PullUp)));
    assert_eq!(PULL_DOWN, u32::from(u8::from(PULL::PullDown)));
}

#[test]
fn output_type_bit_is_the_vendor_bit() {
    assert!(!bool::from(OUTPUT_TYPE::PushPull));
    assert!(bool::from(OUTPUT_TYPE::OpenDrain));
}

#[test]
fn alternate_function_codes_are_the_vendor_codes() {
    assert_eq!(u8::from(AlternateFunctionList::AF0), u8::from(ALTERNATE_FUNCTION::Af0));
    assert_eq!(u8::from(AlternateFunctionList::AF1), u8::from(ALTERNATE_FUNCTION::Af1));
    assert_eq!(u8::from(AlternateFunctionList::AF2), u8::from(ALTERNATE_FUNCTION::Af2));
    assert_eq!(u8::from(AlternateFunctionList::AF3), u8::from(ALTERNATE_FUNCTION::Af3));
    assert_eq!(u8::from(AlternateFunctionList::AF4), u8::from(ALTERNATE_FUNCTION::Af4));
    assert_eq!(u8::from(AlternateFunctionList::AF5), u8::from(ALTERNATE_FUNCTION::Af5));
    assert_eq!(u8::from(AlternateFunctionList::AF6), u8::from(ALTERNATE_FUNCTION::Af6));
    assert_eq!(u8::from(AlternateFunctionList::AF7), u8::from(ALTERNATE_FUNCTION::Af7));
}

#[test]
fn clock_source_codes_are_the_vendor_codes() {
    assert_eq!(u8::from(SystemClockSource::HSI), u8::from(SW::Hsisys));
    assert_eq!(u8::from(SystemClockSource::HSE), u8::from(SW::Hse));
    assert_eq!(u8::from(SystemClockSource::PLL), u8::from(SW::Pllr));
    assert_eq!(u8::from(SystemClockSource::LSI), u8::from(SW::Lsi));
    assert_eq!(u8::from(SystemClockSource::LSE), u8::from(SW::Lse));
}

#[test]
fn hsi16_division_codes_are_the_vendor_codes() {
    assert_eq!(u8::from(HSI16DivisionFactor::Div1), u8::from(HSIDIV::Div1));
    assert_eq!(u8::from(HSI16DivisionFactor::Div2), u8::from(HSIDIV::Div2));
    assert_eq!(u8::from(HSI16DivisionFactor::Div4), u8::from(HSIDIV::Div4));
    assert_eq!(u8::from(HSI16DivisionFactor::Div8), u8::from(HSIDIV::Div8));
    assert_eq!(u8::from(HSI16DivisionFactor::Div16), u8::from(HSIDIV::Div16));
    assert_eq!(u8::from(HSI16DivisionFactor::Div32), u8::from(HSIDIV::Div32));
    assert_eq!(u8::from(HSI16DivisionFactor::Div64), u8::from(HSIDIV::Div64));
    assert_eq!(u8::from(HSI16DivisionFactor::Div128), u8::from(HSIDIV::Div128));
}

#[test]
fn adc_codes_are_the_vendor_codes() {
    assert_eq!(u8::from(ClockMode::Async), u8::from(CKMODE::Adclk));
    assert_eq!(u8::from(ClockMode::SyncPclkDiv2), u8::from(CKMODE::PclkDiv2));
    assert_eq!(u8::from(ClockMode::SyncPclkDiv4), u8::from(CKMODE::PclkDiv4));
    assert_eq!(u8::from(ClockMode::SyncPclkDiv1), u8::from(CKMODE::Pclk));
    assert_eq!(u8::from(Resolution::Bits12), u8::from(RES::Bits12));
    assert_eq!(u8::from(Resolution::Bits10), u8::from(RES::Bits10));
    assert_eq!(u8::from(Resolution::Bits8), u8::from(RES::Bits8));
    assert_eq!(u8::from(Resolution::Bits6), u8::from(RES::Bits6));
    assert_eq!(bool::from(DataAlignment::Right), bool::from(ALIGN::Right));
    assert_eq!(bool::from(DataAlignment::Left), bool::from(ALIGN::Left));
    assert_eq!(u8::from(ExternalTriggerMode::Disabled), u8::from(EXTEN::Disabled));
    assert_eq!(u8::from(ExternalTriggerMode::RisingEdge), u8::from(EXTEN::RisingEdge));
    assert_eq!(u8::from(ExternalTriggerMode::FallingEdge), u8::from(EXTEN::FallingEdge));
    assert_eq!(u8::from(ExternalTriggerMode::RisingAndFallingEdge), u8::from(EXTEN::BothEdges));
    assert_eq!(u8::from(SamplingTime::T1_5), u8::from(SMP1::Cycles1_5));
    assert_eq!(u8::from(SamplingTime::T3_5), u8::from(SMP1::Cycles3_5));
    assert_eq!(u8::from(SamplingTime::T7_5), u8::from(SMP1::Cycles7_5));
    assert_eq!(u8::from(SamplingTime::T12_5), u8::from(SMP1::Cycles12_5));
    assert_eq!(u8::from(SamplingTime::T19_5), u8::from(SMP1::Cycles19_5));
    assert_eq!(u8::from(SamplingTime::T39_5), u8::from(SMP1::Cycles39_5));
    assert_eq!(u8::from(SamplingTime::T79_5), u8::from(SMP1::Cycles79_5));
    assert_eq!(u8::from(SamplingTime::T160_5), u8::from(SMP1::Cycles160_5));
    assert_eq!(bool::from(SamplingTimeCommonGroup::Common1), bool::from(SMPSEL0::Smp1));
    assert_eq!(bool::from(SamplingTimeCommonGroup::Common2), bool::from(SMPSEL0::Smp2));
}
