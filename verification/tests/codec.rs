use stm32g0_ll_drivers::adc::{
    Channel, ClockMode, DataAlignment, ExternalTriggerMode, ExternalTriggerSource, LowPowerMode,
    RegularRank, Resolution, SamplingTime, SamplingTimeCommonGroup,
};
use stm32g0_ll_drivers::gpio::AlternateFunctionList;
use stm32g0_ll_drivers::rcc::{
    APB1Peripheral, APB2Peripheral, GPIOPort, HSI16DivisionFactor, SystemClockSource,
};

#[test]
fn system_clock_source_codes() {
    assert_eq!(u8::from(SystemClockSource::HSI), 0);
    assert_eq!(u8::from(SystemClockSource::HSE), 1);
    assert_eq!(u8::from(SystemClockSource::PLL), 2);
    assert_eq!(u8::from(SystemClockSource::LSI), 3);
    assert_eq!(u8::from(SystemClockSource::LSE), 4);
}

#[test]
fn system_clock_source_round_trip() {
    let all = [
        SystemClockSource::HSI,
        SystemClockSource::HSE,
        SystemClockSource::PLL,
        SystemClockSource::LSI,
        SystemClockSource::LSE,
    ];
    for v in all {
        assert_eq!(SystemClockSource::from_u8(u8::from(v)), Some(v));
    }
}

#[test]
fn system_clock_source_rejects_other_codes() {
    for code in 5..=255u8 {
        assert_eq!(SystemClockSource::from_u8(code), None);
    }
}

#[test]
fn hsi16_division_factor_round_trip() {
    let all = [
        HSI16DivisionFactor::Div1,
        HSI16DivisionFactor::Div2,
        HSI16DivisionFactor::Div4,
        HSI16DivisionFactor::Div8,
        HSI16DivisionFactor::Div16,
        HSI16DivisionFactor::Div32,
        HSI16DivisionFactor::Div64,
        HSI16DivisionFactor::Div128,
    ];
    for (code, v) in all.into_iter().enumerate() {
        assert_eq!(u8::from(v), code as u8);
        assert_eq!(HSI16DivisionFactor::from_u8(code as u8), Some(v));
    }
    for code in 8..=255u8 {
        assert_eq!(HSI16DivisionFactor::from_u8(code), None);
    }
}

#[test]
fn external_trigger_mode_round_trip() {
    let all = [
        ExternalTriggerMode::Disabled,
        ExternalTriggerMode::RisingEdge,
        ExternalTriggerMode::FallingEdge,
        ExternalTriggerMode::RisingAndFallingEdge,
    ];
    for (code, v) in all.into_iter().enumerate() {
        assert_eq!(u8::from(v), code as u8);
        assert_eq!(ExternalTriggerMode::from_u8(code as u8), Some(v));
    }
    for code in 4..=255u8 {
        assert_eq!(ExternalTriggerMode::from_u8(code), None);
    }
}

#[test]
fn external_trigger_source_round_trip() {
    let all = [
        ExternalTriggerSource::TRG0,
        ExternalTriggerSource::TRG1,
        ExternalTriggerSource::TRG2,
        ExternalTriggerSource::TRG3,
        ExternalTriggerSource::TRG4,
        ExternalTriggerSource::TRG5,
        ExternalTriggerSource::TRG6,
        ExternalTriggerSource::TRG7,
    ];
    for (code, v) in all.into_iter().enumerate() {
        assert_eq!(u8::from(v), code as u8);
        assert_eq!(ExternalTriggerSource::from_u8(code as u8), Some(v));
    }
    for code in 8..=255u8 {
        assert_eq!(ExternalTriggerSource::from_u8(code), None);
    }
}

#[test]
fn clock_mode_codes() {
    assert_eq!(u8::from(ClockMode::Async), 0);
    assert_eq!(u8::from(ClockMode::SyncPclkDiv2), 1);
    assert_eq!(u8::from(ClockMode::SyncPclkDiv4), 2);
    assert_eq!(u8::from(ClockMode::SyncPclkDiv1), 3);
}

#[test]
fn clock_mode_round_trip() {
    let all =
        [ClockMode::Async, ClockMode::SyncPclkDiv1, ClockMode::SyncPclkDiv2, ClockMode::SyncPclkDiv4];
    for v in all {
        assert_eq!(ClockMode::from_u8(u8::from(v)), Some(v));
    }
    for code in 4..=255u8 {
        assert_eq!(ClockMode::from_u8(code), None);
    }
}

#[test]
fn resolution_round_trip() {
    let all = [Resolution::Bits12, Resolution::Bits10, Resolution::Bits8, Resolution::Bits6];
    for (code, v) in all.into_iter().enumerate() {
        assert_eq!(u8::from(v), code as u8);
        assert_eq!(Resolution::from_u8(code as u8), Some(v));
    }
    for code in 4..=255u8 {
        assert_eq!(Resolution::from_u8(code), None);
    }
}

#[test]
fn data_alignment_round_trip() {
    assert!(!bool::from(DataAlignment::Right));
    assert!(bool::from(DataAlignment::Left));
    assert_eq!(DataAlignment::from_u8(0), Some(DataAlignment::Right));
    assert_eq!(DataAlignment::from_u8(1), Some(DataAlignment::Left));
    for code in 2..=255u8 {
        assert_eq!(DataAlignment::from_u8(code), None);
    }
}

#[test]
fn low_power_mode_round_trip() {
    let all = [
        LowPowerMode::Off,
        LowPowerMode::AutoWait,
        LowPowerMode::AutoPowerOff,
        LowPowerMode::AutoWaitAndPowerOff,
    ];
    for (code, v) in all.into_iter().enumerate() {
        assert_eq!(u8::from(v), code as u8);
        assert_eq!(LowPowerMode::from_u8(code as u8), Some(v));
    }
    for code in 4..=255u8 {
        assert_eq!(LowPowerMode::from_u8(code), None);
    }
}

#[test]
fn sampling_time_common_group_encodings() {
    assert_eq!(u8::from(SamplingTimeCommonGroup::Common1), 0);
    assert_eq!(u8::from(SamplingTimeCommonGroup::Common2), 4);
    assert!(!bool::from(SamplingTimeCommonGroup::Common1));
    assert!(bool::from(SamplingTimeCommonGroup::Common2));
}

#[test]
fn sampling_time_common_group_round_trip() {
    for code in 0..=255u8 {
        let expected = match code {
            0 => Some(SamplingTimeCommonGroup::Common1),
            4 => Some(SamplingTimeCommonGroup::Common2),
            _ => None,
        };
        assert_eq!(SamplingTimeCommonGroup::from_u8(code), expected);
    }
}

#[test]
fn sampling_time_round_trip() {
    let all = [
        SamplingTime::T1_5,
        SamplingTime::T3_5,
        SamplingTime::T7_5,
        SamplingTime::T12_5,
        SamplingTime::T19_5,
        SamplingTime::T39_5,
        SamplingTime::T79_5,
        SamplingTime::T160_5,
    ];
    for (code, v) in all.into_iter().enumerate() {
        assert_eq!(u8::from(v), code as u8);
        assert_eq!(SamplingTime::from_u8(code as u8), Some(v));
    }
    for code in 8..=255u8 {
        assert_eq!(SamplingTime::from_u8(code), None);
    }
}

fn channels() -> [Channel; 19] {
    [
        Channel::C0,
        Channel::C1,
        Channel::C2,
        Channel::C3,
        Channel::C4,
        Channel::C5,
        Channel::C6,
        Channel::C7,
        Channel::C8,
        Channel::C9,
        Channel::C10,
        Channel::C11,
        Channel::C12,
        Channel::C13,
        Channel::C14,
        Channel::C15,
        Channel::C16,
        Channel::C17,
        Channel::C18,
    ]
}

#[test]
fn channel_round_trip() {
    for (code, v) in channels().into_iter().enumerate() {
        assert_eq!(u8::from(v), code as u8);
        assert_eq!(Channel::from_u8(code as u8), Some(v));
    }
    for code in 19..=255u8 {
        assert_eq!(Channel::from_u8(code), None);
    }
}

#[test]
fn channel_from_usize_counts_from_one() {
    assert_eq!(Channel::from_usize(5), Some(Channel::C4));
    assert_eq!(Channel::from_usize(19), Some(Channel::C18));
    assert_eq!(Channel::from_usize(1), Some(Channel::C0));
    assert_eq!(Channel::from_usize(18), Some(Channel::C17));
    for (index, v) in channels().into_iter().enumerate() {
        assert_eq!(Channel::from_usize(index + 1), Some(v));
    }
}

#[test]
fn channel_from_usize_rejects_zero_and_above_nineteen() {
    assert_eq!(Channel::from_usize(0), None);
    assert_eq!(Channel::from_usize(20), None);
    assert_eq!(Channel::from_usize(256), None);
    assert_eq!(Channel::from_usize(257), None);
    assert_eq!(Channel::from_usize(usize::MAX), None);
}

#[test]
fn regular_rank_round_trip() {
    let all = [
        RegularRank::R1,
        RegularRank::R2,
        RegularRank::R3,
        RegularRank::R4,
        RegularRank::R5,
        RegularRank::R6,
        RegularRank::R7,
        RegularRank::R8,
    ];
    for (rank, v) in all.into_iter().enumerate() {
        assert_eq!(u8::from(v), 4 * rank as u8);
        assert_eq!(RegularRank::from_u8(4 * rank as u8), Some(v));
    }
    for code in 0..=255u8 {
        if code % 4 != 0 || code > 28 {
            assert_eq!(RegularRank::from_u8(code), None);
        }
    }
}

#[test]
fn alternate_function_round_trip() {
    let all = [
        AlternateFunctionList::AF0,
        AlternateFunctionList::AF1,
        AlternateFunctionList::AF2,
        AlternateFunctionList::AF3,
        AlternateFunctionList::AF4,
        AlternateFunctionList::AF5,
        AlternateFunctionList::AF6,
        AlternateFunctionList::AF7,
    ];
    for (code, v) in all.into_iter().enumerate() {
        assert_eq!(u8::from(v), code as u8);
        assert_eq!(AlternateFunctionList::from_u8(code as u8), Some(v));
    }
    for code in 8..=255u8 {
        assert_eq!(AlternateFunctionList::from_u8(code), None);
    }
}

#[test]
fn apb1_offsets() {
    let table = [
        (APB1Peripheral::TIM2, 0),
        (APB1Peripheral::TIM3, 1),
        (APB1Peripheral::TIM4, 2),
        (APB1Peripheral::TIM6, 4),
        (APB1Peripheral::TIM7, 5),
        (APB1Peripheral::LPUART2, 7),
        (APB1Peripheral::USART5, 8),
        (APB1Peripheral::USART6, 9),
        (APB1Peripheral::RTCAPB, 10),
        (APB1Peripheral::WWDG, 11),
        (APB1Peripheral::FDCAN, 12),
        (APB1Peripheral::USB, 13),
        (APB1Peripheral::SPI2, 14),
        (APB1Peripheral::SPI3, 15),
        (APB1Peripheral::CRS, 16),
        (APB1Peripheral::USART2, 17),
        (APB1Peripheral::USART3, 18),
        (APB1Peripheral::USART4, 19),
        (APB1Peripheral::LPUART1, 20),
        (APB1Peripheral::I2C1, 21),
        (APB1Peripheral::I2C2, 22),
        (APB1Peripheral::I2C3, 23),
        (APB1Peripheral::CEC, 24),
        (APB1Peripheral::UCPD1, 25),
        (APB1Peripheral::UCPD2, 26),
        (APB1Peripheral::DBG, 27),
        (APB1Peripheral::PWR, 28),
        (APB1Peripheral::DAC1, 29),
        (APB1Peripheral::LPTIM2, 30),
        (APB1Peripheral::LPTIM1, 31),
    ];
    let mut seen: u32 = 0;
    for (p, offset) in table {
        assert_eq!(u8::from(p), offset);
        assert_eq!(seen & (1 << offset), 0);
        seen |= 1 << offset;
    }
}

#[test]
fn apb2_offsets() {
    let table = [
        (APB2Peripheral::SYSCFG, 0),
        (APB2Peripheral::TIM1, 11),
        (APB2Peripheral::SPI1, 12),
        (APB2Peripheral::USART1, 14),
        (APB2Peripheral::TIM14, 15),
        (APB2Peripheral::TIM15, 16),
        (APB2Peripheral::TIM16, 17),
        (APB2Peripheral::TIM17, 18),
        (APB2Peripheral::ADC, 20),
    ];
    for (p, offset) in table {
        assert_eq!(u8::from(p), offset);
    }
}

#[test]
fn gpio_port_offsets() {
    let table = [
        (GPIOPort::GPIOA, 0),
        (GPIOPort::GPIOB, 1),
        (GPIOPort::GPIOC, 2),
        (GPIOPort::GPIOD, 3),
        (GPIOPort::GPIOE, 4),
        (GPIOPort::GPIOF, 5),
    ];
    for (g, offset) in table {
        assert_eq!(u8::from(g), offset);
    }
}
