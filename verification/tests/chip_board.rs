use kernel::board::{NucleoF446RE, NUM_PROCS};
use kernel::chip::{ServiceAction, Stm32f446re};

#[test]
fn chip_holds_its_parts() {
    let chip = Stm32f446re::new("mpu", 7u32);
    assert_eq!(*chip.mpu(), "mpu");
    assert_eq!(*chip.systick(), 7);
}

#[test]
fn chip_handles_no_interrupt() {
    let chip = Stm32f446re::new((), ());
    assert_eq!(chip.service_pending_interrupts(Some(42)), ServiceAction::Panic(42));
    assert_eq!(chip.service_pending_interrupts(Some(0)), ServiceAction::Panic(0));
}

#[test]
fn chip_returns_when_nothing_is_pending() {
    let chip = Stm32f446re::new((), ());
    assert_eq!(chip.service_pending_interrupts(None), ServiceAction::Return);
}

#[test]
fn board_has_ipc_as_its_only_driver() {
    let board = NucleoF446RE { ipc: "ipc", ipc_driver_num: 0x10000 };
    assert_eq!(board.with_driver(0x10000, |d| d.map(|d| d.len())), Some(3));
    assert_eq!(board.with_driver(0x10001, |d| d.is_none()), true);
    assert_eq!(board.with_driver(0, |d| d.is_none()), true);
}

#[test]
fn board_supports_no_processes_yet() {
    assert_eq!(NUM_PROCS, 0);
}
