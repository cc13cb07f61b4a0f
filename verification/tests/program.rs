use cell_vm::processor::{Fault, HostReply, HostRequest, InitializeError, ProcessorStatus, StopCode};
use cell_vm::program::{Program, RunReport};

fn load(code: &[u32]) -> Program {
    let mut cells = vec![0u32];
    cells.extend_from_slice(code);
    let mut program = Program::new();
    assert_eq!(program.initialize(&cells), Ok(()));
    program
}

#[test]
fn new_program_is_empty() {
    let program = Program::new();
    assert_eq!(program.status(), ProcessorStatus::Empty);
    assert_eq!(program.instruction_pointer(), 1);
    assert!(!program.get_is_breakpoint(1));
    assert_eq!(program.processor().memory().pages(), 0);
}

#[test]
fn initialize_then_no_step_leaves_the_machine_ready() {
    let mut program = Program::new();
    assert_eq!(program.initialize(&[0, 24, 42, 22]), Ok(()));
    assert_eq!(program.instruction_pointer(), 1);
    assert_eq!(program.status(), ProcessorStatus::NotStarted);
    assert_eq!(program.processor().memory().pages(), 1);
    assert_eq!(program.processor().bus(), 0);
}

#[test]
fn initialize_twice_is_rejected() {
    let mut program = load(&[24, 42, 22]);
    assert_eq!(program.initialize(&[0, 22]), Err(InitializeError::NotEmpty));
    assert_eq!(program.processor().get_memory_loc(1), 24);
    assert_eq!(program.status(), ProcessorStatus::NotStarted);
    let mut program = Program::new();
    assert_eq!(program.initialize(&vec![0u32; 32769]), Err(InitializeError::TooLong));
    assert_eq!(program.status(), ProcessorStatus::Empty);
}

#[test]
fn breakpoints_behave_as_a_set() {
    let mut program = Program::new();
    program.set_breakpoint(5);
    program.set_breakpoint(5);
    program.set_breakpoint(9);
    assert!(program.get_is_breakpoint(5));
    assert!(program.get_is_breakpoint(9));
    assert!(!program.get_is_breakpoint(6));
    program.remove_breakpoint(5);
    assert!(!program.get_is_breakpoint(5));
    assert!(program.get_is_breakpoint(9));
    program.remove_breakpoint(5);
    program.remove_breakpoint(1000);
    assert!(!program.get_is_breakpoint(5));
    assert!(program.get_is_breakpoint(9));
    program.set_breakpoint(u32::MAX);
    assert!(program.get_is_breakpoint(u32::MAX));
}

#[test]
fn continue_is_a_no_op_on_empty_and_halted_machines() {
    let mut program = Program::new();
    assert_eq!(program.run(100, None), RunReport { steps_taken: 0, request: None });
    assert_eq!(program.status(), ProcessorStatus::Empty);
    assert_eq!(program.instruction_pointer(), 1);
    assert_eq!(program.step_over(None), None);
    assert_eq!(program.status(), ProcessorStatus::Empty);

    let mut program = load(&[22]);
    assert_eq!(program.run(100, None), RunReport { steps_taken: 1, request: None });
    assert_eq!(program.status(), ProcessorStatus::Halted);
    assert_eq!(program.run(100, None), RunReport { steps_taken: 0, request: None });
    assert_eq!(program.step_over(None), None);
    assert_eq!(program.status(), ProcessorStatus::Halted);
    assert_eq!(program.instruction_pointer(), 1);
}

#[test]
fn continue_counts_its_steps() {
    let mut program = load(&[24, 1, 24, 2, 24, 3, 22]);
    let report = program.run(100, None);
    assert_eq!(report, RunReport { steps_taken: 4, request: None });
    assert_eq!(program.status(), ProcessorStatus::Halted);
    let mut program = load(&[24, 1, 24, 2, 24, 3, 22]);
    assert_eq!(program.run(2, None), RunReport { steps_taken: 2, request: None });
    assert_eq!(program.status(), ProcessorStatus::Running);
    assert_eq!(program.instruction_pointer(), 5);
    assert_eq!(program.processor().bus(), 2);
    assert_eq!(program.run(2, None), RunReport { steps_taken: 2, request: None });
    assert_eq!(program.status(), ProcessorStatus::Halted);
}

#[test]
fn step_over_from_not_started_pauses() {
    let mut program = load(&[24, 42, 22]);
    assert_eq!(program.step_over(None), None);
    assert_eq!(program.status(), ProcessorStatus::Paused);
    assert_eq!(program.instruction_pointer(), 3);
    assert_eq!(program.processor().bus(), 42);
    assert_eq!(program.step_over(None), None);
    assert_eq!(program.status(), ProcessorStatus::Halted);
    assert_eq!(program.instruction_pointer(), 3);
    assert_eq!(program.step_over(None), None);
    assert_eq!(program.status(), ProcessorStatus::Halted);
}

#[test]
fn step_over_forces_paused_even_on_a_halt() {
    let mut program = load(&[22]);
    assert_eq!(program.step_over(None), None);
    assert_eq!(program.status(), ProcessorStatus::Paused);
    assert_eq!(program.instruction_pointer(), 1);
    assert_eq!(program.step_over(None), None);
    assert_eq!(program.status(), ProcessorStatus::Halted);
}

#[test]
fn step_over_does_nothing_while_running() {
    let mut program = load(&[24, 1, 13]);
    program.run(3, None);
    assert_eq!(program.status(), ProcessorStatus::Running);
    let ip = program.instruction_pointer();
    assert_eq!(program.step_over(None), None);
    assert_eq!(program.status(), ProcessorStatus::Running);
    assert_eq!(program.instruction_pointer(), ip);
}

#[test]
fn step_over_asks_the_host_and_waits() {
    let mut program = load(&[21, 4, 22]);
    let request = HostRequest::Syscall { code: 4, arg: 0 };
    assert_eq!(program.step_over(None), Some(request));
    assert_eq!(program.status(), ProcessorStatus::NotStarted);
    assert_eq!(program.instruction_pointer(), 1);
    assert_eq!(program.step_over(Some(HostReply::Syscall(12))), None);
    assert_eq!(program.status(), ProcessorStatus::Paused);
    assert_eq!(program.processor().bus(), 12);
    assert_eq!(program.instruction_pointer(), 3);
}

#[test]
fn breakpoint_pauses_before_the_instruction() {
    for address in [1u32, 3, 5, 7] {
        let mut program = load(&[24, 1, 24, 2, 24, 3, 22]);
        program.set_breakpoint(address);
        program.enable_breakpoints();
        let report = program.run(100, None);
        assert_eq!(program.status(), ProcessorStatus::Paused);
        assert_eq!(program.instruction_pointer(), address);
        assert_eq!(program.processor().bus(), (address - 1) / 2);
        assert_eq!(report.steps_taken, (address - 1) / 2 + 1);
        assert_eq!(report.request, None);
    }
}

#[test]
fn breakpoints_are_ignored_while_disabled() {
    let mut program = load(&[24, 1, 24, 2, 22]);
    program.set_breakpoint(3);
    program.run(100, None);
    assert_eq!(program.status(), ProcessorStatus::Halted);
    let mut program = load(&[24, 1, 24, 2, 22]);
    program.set_breakpoint(3);
    program.enable_breakpoints();
    program.disable_breakpoints();
    program.run(100, None);
    assert_eq!(program.status(), ProcessorStatus::Halted);
    assert_eq!(program.processor().bus(), 2);
}

#[test]
fn a_standing_breakpoint_holds_the_machine() {
    let mut program = load(&[24, 1, 24, 2, 22]);
    program.set_breakpoint(3);
    program.enable_breakpoints();
    program.run(100, None);
    assert_eq!(program.instruction_pointer(), 3);
    // continue and step-over both meet the breakpoint again
    assert_eq!(program.run(100, None).steps_taken, 1);
    assert_eq!(program.status(), ProcessorStatus::Paused);
    assert_eq!(program.instruction_pointer(), 3);
    assert_eq!(program.step_over(None), None);
    assert_eq!(program.instruction_pointer(), 3);
    assert_eq!(program.processor().bus(), 1);
    // once it is cleared, step-over executes the instruction at the breakpoint
    program.remove_breakpoint(3);
    assert_eq!(program.step_over(None), None);
    assert_eq!(program.instruction_pointer(), 5);
    assert_eq!(program.processor().bus(), 2);
    assert_eq!(program.status(), ProcessorStatus::Paused);
}

#[test]
fn breakpoint_comes_before_the_host() {
    let mut program = load(&[21, 4, 22]);
    program.set_breakpoint(1);
    program.enable_breakpoints();
    assert_eq!(program.run(10, None), RunReport { steps_taken: 1, request: None });
    assert_eq!(program.status(), ProcessorStatus::Paused);
    program.disable_breakpoints();
    let report = program.run(10, None);
    assert_eq!(report.steps_taken, 0);
    assert_eq!(report.request, Some(HostRequest::Syscall { code: 4, arg: 0 }));
    assert_eq!(program.status(), ProcessorStatus::Running);
}

#[test]
fn step_reports_what_happened() {
    let mut program = load(&[24, 1, 23, 8]);
    assert_eq!(program.step(None), StopCode::Proceed);
    assert_eq!(program.step(None), StopCode::Pause);
    assert_eq!(program.status(), ProcessorStatus::Paused);
    assert_eq!(program.step(None), StopCode::Halt);
    assert_eq!(program.status(), ProcessorStatus::Halted);
    assert_eq!(program.processor().fault(), Some(Fault::UnknownOpcode));
    assert_eq!(program.instruction_pointer(), 4);
    let mut program = load(&[24, 1]);
    program.set_breakpoint(1);
    program.enable_breakpoints();
    assert_eq!(program.step(None), StopCode::Pause);
    assert_eq!(program.instruction_pointer(), 1);
    assert_eq!(program.processor().bus(), 0);
}

#[test]
fn reply_answers_the_first_instruction_only() {
    // two system calls in a row
    let mut program = load(&[21, 1, 21, 2, 22]);
    let report = program.run(10, Some(HostReply::Syscall(7)));
    assert_eq!(report.steps_taken, 1);
    assert_eq!(report.request, Some(HostRequest::Syscall { code: 2, arg: 7 }));
    assert_eq!(program.processor().bus(), 7);
    assert_eq!(program.instruction_pointer(), 3);
}

#[test]
fn memory_fault_in_a_run_halts_at_the_instruction() {
    let mut program = load(&[24, 3, 2, 0xffff_0000, 22]);
    let report = program.run(100, None);
    assert_eq!(report.steps_taken, 2);
    assert_eq!(program.status(), ProcessorStatus::Halted);
    assert_eq!(program.processor().fault(), Some(Fault::MemoryFault));
    assert_eq!(program.instruction_pointer(), 3);
}
