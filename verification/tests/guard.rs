use stm32g0_ll_drivers::adc::Adc;
use stm32g0_ll_drivers::guard::{OwnershipGuard, PeripheralKind};
use stm32g0_ll_drivers::rcc::Rcc;

#[test]
fn first_acquire_is_granted_and_the_second_refused() {
    let mut guard = OwnershipGuard::new();
    assert!(!guard.is_taken(PeripheralKind::Rcc));
    let first = guard.acquire(PeripheralKind::Rcc);
    assert!(first.is_some());
    assert_eq!(first.unwrap().kind(), PeripheralKind::Rcc);
    assert!(guard.is_taken(PeripheralKind::Rcc));
    assert!(guard.acquire(PeripheralKind::Rcc).is_none());
    assert!(guard.acquire(PeripheralKind::Rcc).is_none());
}

#[test]
fn kinds_are_claimed_apart() {
    let mut guard = OwnershipGuard::new();
    assert!(guard.acquire(PeripheralKind::Adc).is_some());
    assert!(guard.is_taken(PeripheralKind::Adc));
    assert!(!guard.is_taken(PeripheralKind::Rcc));
    assert!(guard.acquire(PeripheralKind::Rcc).is_some());
    assert!(guard.acquire(PeripheralKind::Adc).is_none());
    assert!(guard.acquire(PeripheralKind::Rcc).is_none());
}

#[test]
fn each_guard_grants_on_its_own() {
    let mut one = OwnershipGuard::new();
    let mut two = OwnershipGuard::new();
    assert!(one.acquire(PeripheralKind::Rcc).is_some());
    assert!(two.acquire(PeripheralKind::Rcc).is_some());
    assert!(one.acquire(PeripheralKind::Rcc).is_none());
}

#[test]
fn rcc_is_taken_once() {
    let mut guard = OwnershipGuard::new();
    let first = Rcc::take(&mut guard);
    assert!(first.is_some());
    assert!(guard.is_taken(PeripheralKind::Rcc));
    assert!(!guard.is_taken(PeripheralKind::Adc));
    assert!(Rcc::take(&mut guard).is_none());
    assert!(Rcc::take(&mut guard).is_none());
    assert!(!guard.is_taken(PeripheralKind::Adc));
}

#[test]
fn adc_is_taken_once_and_its_clock_enabled() {
    let mut guard = OwnershipGuard::new();
    let mut rcc = Rcc::take(&mut guard).unwrap();
    assert_eq!(rcc.registers().apbenr2, 0);
    let adc = Adc::new(&mut rcc, &mut guard);
    assert!(adc.is_some());
    assert_eq!(rcc.registers().apbenr2, 1 << 20);
    assert!(guard.is_taken(PeripheralKind::Adc));
    assert!(Adc::new(&mut rcc, &mut guard).is_none());
}

#[test]
fn refused_adc_changes_nothing() {
    let mut guard = OwnershipGuard::new();
    let mut rcc = Rcc::take(&mut guard).unwrap();
    let _adc = Adc::new(&mut rcc, &mut guard).unwrap();
    let mut cleared = rcc.registers();
    cleared.apbenr2 = 0;
    rcc.load(cleared);
    assert!(Adc::new(&mut rcc, &mut guard).is_none());
    assert_eq!(rcc.registers(), cleared);
    assert!(guard.is_taken(PeripheralKind::Adc));
    assert!(guard.is_taken(PeripheralKind::Rcc));
}
