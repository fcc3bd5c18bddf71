use kernel::capabilities::{
    MainLoopCapability, MemoryAllocationCapability, ProcessManagementCapability,
};
use kernel::grant::Grant;
use kernel::kernel::Kernel;
use kernel::main_loop::LoopAction;
use kernel::process::AppId;
use kernel::returncode::ReturnCode;
use kernel::run::Action;

struct Holder;

impl MainLoopCapability for Holder {}

impl MemoryAllocationCapability for Holder {}

impl ProcessManagementCapability for Holder {}

const SLOTS: [Option<&str>; 5] = [None, Some("blink"), None, Some("radio"), Some("shell")];

#[test]
fn new_kernel_is_idle() {
    let kernel = Kernel::new(&SLOTS);
    assert!(kernel.processes_blocked());
    assert_eq!(kernel.number_of_process_slots(), 5);
    assert!(kernel.grants_open());
}

#[test]
fn no_slots() {
    let none: [Option<u8>; 0] = [];
    let kernel = Kernel::new(&none);
    assert_eq!(kernel.number_of_process_slots(), 0);
    assert_eq!(kernel.hardfault_all_apps(&Holder), vec![]);
    assert_eq!(kernel.process_map_or(7, 0, |_| 8), 7);
    assert_eq!(kernel.process_each_enumerate(3, |_, _, n| n + 1), 3);
    let ret = kernel.process_each_enumerate_stop(3, |_, _, n| (ReturnCode::EINVAL, n + 1));
    assert_eq!(ret, (ReturnCode::FAIL, 3));
}

#[test]
fn work_is_scheduled_less_finished() {
    let mut kernel = Kernel::new(&SLOTS);
    kernel.increment_work();
    assert!(!kernel.processes_blocked());
    kernel.increment_work();
    kernel.decrement_work();
    assert!(!kernel.processes_blocked());
    kernel.decrement_work();
    assert!(kernel.processes_blocked());
}

#[test]
fn map_or_finds_the_process() {
    let kernel = Kernel::new(&SLOTS);
    assert_eq!(kernel.process_map_or(0, 1, |p| p.len()), 5);
    assert_eq!(kernel.process_map_or("", 3, |p| *p), "radio");
}

#[test]
fn map_or_gives_the_default() {
    let kernel = Kernel::new(&SLOTS);
    assert_eq!(kernel.process_map_or(99, 0, |p| p.len()), 99);
    assert_eq!(kernel.process_map_or(99, 5, |p| p.len()), 99);
    assert_eq!(kernel.process_map_or(99, 6, |p| p.len()), 99);
    assert_eq!(kernel.process_map_or(99, usize::MAX, |p| p.len()), 99);
}

#[test]
fn each_visits_every_process_in_order() {
    let kernel = Kernel::new(&SLOTS);
    let seen = kernel.process_each_enumerate(vec![], |i, p, mut seen: Vec<(usize, &str)>| {
        seen.push((i, *p));
        seen
    });
    assert_eq!(seen, vec![(1, "blink"), (3, "radio"), (4, "shell")]);
}

#[test]
fn each_stop_ends_at_the_first_other_code() {
    let kernel = Kernel::new(&SLOTS);
    let (code, seen) = kernel.process_each_enumerate_stop(vec![], |i, _, mut seen: Vec<usize>| {
        seen.push(i);
        let code = if i == 3 { ReturnCode::Other(0) } else { ReturnCode::FAIL };
        (code, seen)
    });
    assert_eq!(code, ReturnCode::Other(0));
    assert_eq!(seen, vec![1, 3]);
}

#[test]
fn each_stop_fails_after_all() {
    let kernel = Kernel::new(&SLOTS);
    let (code, seen) = kernel.process_each_enumerate_stop(vec![], |i, _, mut seen: Vec<usize>| {
        seen.push(i);
        (ReturnCode::FAIL, seen)
    });
    assert_eq!(code, ReturnCode::FAIL);
    assert_eq!(seen, vec![1, 3, 4]);
}

#[test]
fn grants_are_numbered_in_order() {
    let mut kernel = Kernel::new(&SLOTS);
    let first: Grant<u8> = kernel.create_grant(&Holder);
    let second: Grant<u32> = kernel.create_grant(&Holder);
    let third: Grant<u8> = kernel.create_grant(&Holder);
    assert_eq!((first.grant_num, second.grant_num, third.grant_num), (0, 1, 2));
}

#[test]
fn final_grants_stay_final() {
    let mut kernel = Kernel::new(&SLOTS);
    let _: Grant<u8> = kernel.create_grant(&Holder);
    let _: Grant<u8> = kernel.create_grant(&Holder);
    assert!(kernel.grants_open());
    assert_eq!(kernel.get_grant_count_and_finalize(), 2);
    assert!(!kernel.grants_open());
    assert_eq!(kernel.get_grant_count_and_finalize(), 2);
    assert!(!kernel.grants_open());
}

#[test]
fn calls_leave_the_slots_alone() {
    let mut kernel = Kernel::new(&SLOTS);
    kernel.increment_work();
    let _: Grant<u8> = kernel.create_grant(&Holder);
    kernel.get_grant_count_and_finalize();
    assert_eq!(kernel.number_of_process_slots(), 5);
    assert_eq!(kernel.process_map_or("", 4, |p| *p), "shell");
    assert!(!kernel.processes_blocked());
}

#[test]
fn hardfault_names_every_process() {
    let kernel = Kernel::new(&SLOTS);
    assert_eq!(kernel.hardfault_all_apps(&Holder), vec![1, 3, 4]);
}

#[test]
fn loops_begin() {
    let kernel = Kernel::new(&SLOTS);
    let (_, action) = kernel.kernel_loop(&Holder);
    assert_eq!(action, LoopAction::WritePendOnce(false));
    let (_, action) = kernel.do_process::<u8, u8>(AppId { idx: 1 }, true);
    assert_eq!(action, Action::SystickReset);
}
