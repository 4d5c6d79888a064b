use stm32g0_ll_drivers::guard::OwnershipGuard;
use stm32g0_ll_drivers::rcc::{
    APB1Peripheral, APB2Peripheral, Bus, ClockGate, GPIOPort, HSI16DivisionFactor, Peripheral, Rcc,
    RegisterBlock, SystemClockSource, HSE_FREQ,
};

fn taken() -> Rcc {
    let mut guard = OwnershipGuard::new();
    Rcc::take(&mut guard).unwrap()
}

fn with(rb: RegisterBlock) -> Rcc {
    let mut rcc = taken();
    rcc.load(rb);
    rcc
}

const ZERO: RegisterBlock = RegisterBlock { cr: 0, cfgr: 0, iopenr: 0, apbenr1: 0, apbenr2: 0 };
const ONES: RegisterBlock = RegisterBlock {
    cr: 0xffff_ffff,
    cfgr: 0xffff_ffff,
    iopenr: 0xffff_ffff,
    apbenr1: 0xffff_ffff,
    apbenr2: 0xffff_ffff,
};

#[test]
fn a_taken_rcc_holds_the_reset_values() {
    let rcc = taken();
    assert_eq!(
        rcc.registers(),
        RegisterBlock { cr: 0x0000_0500, cfgr: 0, iopenr: 0, apbenr1: 0, apbenr2: 0 }
    );
    assert!(rcc.is_hsi_ready());
}

#[test]
fn load_replaces_the_words() {
    let mut rcc = taken();
    let rb = RegisterBlock { cr: 1, cfgr: 2, iopenr: 3, apbenr1: 4, apbenr2: 5 };
    rcc.load(rb);
    assert_eq!(rcc.registers(), rb);
}

#[test]
fn enabling_port_a_sets_bit_zero_of_iopenr_only() {
    let mut rcc = with(RegisterBlock { iopenr: 0xa5a5_a5a4, ..ZERO });
    rcc.enable_gpio_port_clock(GPIOPort::GPIOA);
    let rb = rcc.registers();
    assert_eq!(rb.iopenr & 1, 1);
    assert_eq!(rb.iopenr & !1, 0xa5a5_a5a4);
    assert_eq!(rb, RegisterBlock { iopenr: 0xa5a5_a5a5, ..ZERO });
}

#[test]
fn gpio_port_clocks() {
    let ports = [
        GPIOPort::GPIOA,
        GPIOPort::GPIOB,
        GPIOPort::GPIOC,
        GPIOPort::GPIOD,
        GPIOPort::GPIOE,
        GPIOPort::GPIOF,
    ];
    for (offset, g) in ports.into_iter().enumerate() {
        let mut rcc = with(ZERO);
        rcc.enable_gpio_port_clock(g);
        assert_eq!(rcc.registers(), RegisterBlock { iopenr: 1 << offset, ..ZERO });
        let mut rcc = with(ONES);
        rcc.disable_gpio_port_clock(g);
        assert_eq!(rcc.registers(), RegisterBlock { iopenr: !(1 << offset), ..ONES });
    }
}

#[test]
fn peripheral_clocks() {
    let mut rcc = with(ZERO);
    rcc.enable_peripheral_clock(Peripheral::APB1(APB1Peripheral::USART2));
    assert_eq!(rcc.registers(), RegisterBlock { apbenr1: 1 << 17, ..ZERO });
    rcc.enable_peripheral_clock(Peripheral::APB2(APB2Peripheral::USART1));
    assert_eq!(rcc.registers(), RegisterBlock { apbenr1: 1 << 17, apbenr2: 1 << 14, ..ZERO });
    rcc.enable_peripheral_clock(Peripheral::APB1(APB1Peripheral::LPTIM1));
    assert_eq!(
        rcc.registers(),
        RegisterBlock { apbenr1: 0x8002_0000, apbenr2: 1 << 14, ..ZERO }
    );
    rcc.disable_peripheral_clock(Peripheral::APB1(APB1Peripheral::USART2));
    assert_eq!(
        rcc.registers(),
        RegisterBlock { apbenr1: 0x8000_0000, apbenr2: 1 << 14, ..ZERO }
    );
    rcc.disable_peripheral_clock(Peripheral::APB2(APB2Peripheral::USART1));
    assert_eq!(rcc.registers(), RegisterBlock { apbenr1: 0x8000_0000, ..ZERO });
}

#[test]
fn enable_then_disable_restores_the_register() {
    let before = RegisterBlock { apbenr2: 0x0004_5801, ..ZERO };
    let mut rcc = with(before);
    let adc = Peripheral::APB2(APB2Peripheral::ADC);
    rcc.enable_peripheral_clock(adc);
    assert_eq!(rcc.registers().apbenr2, 0x0014_5801);
    rcc.disable_peripheral_clock(adc);
    assert_eq!(rcc.registers(), before);
}

#[test]
fn disabling_a_clock_that_was_enabled_before_does_not_restore() {
    let before = RegisterBlock { apbenr2: 0x0010_0000, ..ZERO };
    let mut rcc = with(before);
    let adc = Peripheral::APB2(APB2Peripheral::ADC);
    rcc.enable_peripheral_clock(adc);
    assert_eq!(rcc.registers(), before);
    rcc.disable_peripheral_clock(adc);
    assert_eq!(rcc.registers(), ZERO);
}

#[test]
fn enabling_one_peripheral_keeps_the_others() {
    let mut rcc = with(ZERO);
    rcc.enable_peripheral_clock(Peripheral::APB1(APB1Peripheral::TIM2));
    rcc.enable_peripheral_clock(Peripheral::APB1(APB1Peripheral::TIM3));
    let rb = rcc.registers();
    assert_eq!(rb.apbenr1, 0b11);
    rcc.disable_peripheral_clock(Peripheral::APB1(APB1Peripheral::TIM2));
    assert_eq!(rcc.registers().apbenr1, 0b10);
}

#[test]
fn gates() {
    assert_eq!(
        Peripheral::APB1(APB1Peripheral::TIM6).gate(),
        ClockGate { bus: Bus::APB1, offset: 4 }
    );
    assert_eq!(
        Peripheral::APB2(APB2Peripheral::ADC).gate(),
        ClockGate { bus: Bus::APB2, offset: 20 }
    );
    assert_eq!(GPIOPort::GPIOF.gate(), ClockGate { bus: Bus::IOP, offset: 5 });
}

#[test]
fn control_bits() {
    let mut rcc = with(ZERO);
    rcc.set_pll_state(true);
    assert_eq!(rcc.registers(), RegisterBlock { cr: 1 << 24, ..ZERO });
    rcc.set_hsi48_state(true);
    assert_eq!(rcc.registers(), RegisterBlock { cr: (1 << 24) | (1 << 22), ..ZERO });
    rcc.set_hse_state(true);
    assert_eq!(rcc.registers().cr, (1 << 24) | (1 << 22) | (1 << 16));
    rcc.set_hsi_state(true);
    assert_eq!(rcc.registers().cr, (1 << 24) | (1 << 22) | (1 << 16) | (1 << 8));
    rcc.set_clock_security_system(true);
    assert_eq!(rcc.registers().cr, (1 << 24) | (1 << 22) | (1 << 19) | (1 << 16) | (1 << 8));
    rcc.bypass_hse_crystal_oscillator(true);
    assert_eq!(rcc.registers().cr, 0x014d_0100);
    rcc.set_pll_state(false);
    assert_eq!(rcc.registers().cr, 0x004d_0100);
    rcc.set_hsi48_state(false);
    assert_eq!(rcc.registers().cr, 0x000d_0100);
    rcc.set_hse_state(false);
    assert_eq!(rcc.registers().cr, 0x000c_0100);
    rcc.set_hsi_state(false);
    assert_eq!(rcc.registers().cr, 0x000c_0000);
    rcc.set_clock_security_system(false);
    assert_eq!(rcc.registers().cr, 0x0004_0000);
    rcc.bypass_hse_crystal_oscillator(false);
    assert_eq!(rcc.registers(), ZERO);
}

#[test]
fn ready_flags() {
    let rcc = with(RegisterBlock { cr: 1 << 25, ..ZERO });
    assert!(rcc.is_pll_locked());
    assert!(!rcc.is_hse_ready());
    assert!(!rcc.is_hsi_ready());
    assert!(!rcc.is_hsi48_ready());
    let rcc = with(RegisterBlock { cr: 1 << 17, ..ZERO });
    assert!(!rcc.is_pll_locked());
    assert!(rcc.is_hse_ready());
    assert!(!rcc.is_hsi_ready());
    let rcc = with(RegisterBlock { cr: 1 << 10, ..ZERO });
    assert!(rcc.is_hsi_ready());
    assert!(rcc.is_hsi48_ready());
    assert!(!rcc.is_hse_ready());
    let rcc = with(RegisterBlock { cr: 1 << 23, ..ZERO });
    assert!(!rcc.is_hsi48_ready());
    assert!(!rcc.is_hsi_ready());
}

#[test]
fn sys_clock_source_is_written_to_the_switch() {
    let mut rcc = with(ONES);
    rcc.set_sys_clock_source(SystemClockSource::PLL);
    assert_eq!(rcc.registers(), RegisterBlock { cfgr: 0xffff_fffa, ..ONES });
    rcc.set_sys_clock_source(SystemClockSource::HSI);
    assert_eq!(rcc.registers().cfgr, 0xffff_fff8);
    rcc.set_sys_clock_source(SystemClockSource::LSE);
    assert_eq!(rcc.registers().cfgr, 0xffff_fffc);
}

#[test]
fn sys_clock_source_is_read_from_the_status() {
    let rcc = with(RegisterBlock { cfgr: 0b010_111, ..ZERO });
    assert_eq!(rcc.get_sys_clock_source(), Some(SystemClockSource::PLL));
    let rcc = with(RegisterBlock { cfgr: 0xffff_ffc7, ..ZERO });
    assert_eq!(rcc.get_sys_clock_source(), Some(SystemClockSource::HSI));
    let rcc = with(RegisterBlock { cfgr: 0b100_000, ..ZERO });
    assert_eq!(rcc.get_sys_clock_source(), Some(SystemClockSource::LSE));
}

#[test]
fn sys_clock_source_of_a_reserved_code_is_nothing() {
    for code in 5..8u32 {
        let rcc = with(RegisterBlock { cfgr: code << 3, ..ZERO });
        assert_eq!(rcc.get_sys_clock_source(), None);
        assert_eq!(rcc.get_sys_clock_freq(), None);
    }
}

#[test]
fn sys_clock_freq_is_known_for_hse() {
    let rcc = with(RegisterBlock { cfgr: 1 << 3, ..ZERO });
    assert_eq!(rcc.get_sys_clock_freq(), Some(8_000_000));
    assert_eq!(HSE_FREQ, 8_000_000);
    for code in [0u32, 2, 3, 4] {
        let rcc = with(RegisterBlock { cfgr: code << 3, ..ZERO });
        assert_eq!(rcc.get_sys_clock_freq(), None);
    }
}

#[test]
fn hsi16_division_factor_is_written_to_its_field() {
    let mut rcc = with(ONES);
    rcc.set_hsi16_division_factor(HSI16DivisionFactor::Div1);
    assert_eq!(rcc.registers(), RegisterBlock { cr: 0xffff_c7ff, ..ONES });
    rcc.set_hsi16_division_factor(HSI16DivisionFactor::Div32);
    assert_eq!(rcc.registers().cr, 0xffff_efff);
    let mut rcc = with(ZERO);
    rcc.set_hsi16_division_factor(HSI16DivisionFactor::Div128);
    assert_eq!(rcc.registers(), RegisterBlock { cr: 0x0000_3800, ..ZERO });
}
