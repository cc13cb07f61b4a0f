use cell_vm::processor::{Fault, HostReply, HostRequest, ProcessorStatus};
use cell_vm::program::Program;

fn host(request: HostRequest) -> HostReply {
    match request {
        HostRequest::Syscall { code, arg } => HostReply::Syscall(code.wrapping_mul(1000).wrapping_add(arg)),
        HostRequest::FloatAdd { a, b } => {
            HostReply::Single((f32::from_bits(a) + f32::from_bits(b)).to_bits())
        }
        HostRequest::FloatMultiply { a, b } => {
            HostReply::Double(((f32::from_bits(a) * f32::from_bits(b)) as f64).to_bits())
        }
        HostRequest::FloatDivide { a, b } => {
            HostReply::Single((f32::from_bits(a) / f32::from_bits(b)).to_bits())
        }
    }
}

/// A program whose cells start at address 1; address 0 holds zero.
fn load(code: &[u32]) -> Program {
    let mut cells = vec![0u32];
    cells.extend_from_slice(code);
    let mut program = Program::new();
    assert_eq!(program.initialize(&cells), Ok(()));
    program
}

/// Continues until the machine stops running, answering the host's part.
fn drive(program: &mut Program) -> u32 {
    let mut reply = None;
    let mut steps = 0;
    for _ in 0..10_000 {
        let report = program.run(64, reply);
        steps += report.steps_taken;
        reply = report.request.map(host);
        if reply.is_none() && program.status() != ProcessorStatus::Running {
            break;
        }
    }
    steps
}

#[test]
fn immediate_and_halt() {
    let mut program = load(&[24, 42, 22]);
    drive(&mut program);
    assert_eq!(program.processor().bus(), 42);
    assert_eq!(program.status(), ProcessorStatus::Halted);
    assert_eq!(program.instruction_pointer(), 3);
    assert_eq!(program.processor().fault(), None);
}

#[test]
fn absolute_store_and_load() {
    let mut program = load(&[24, 7, 2, 100, 24, 0, 1, 100, 22]);
    drive(&mut program);
    assert_eq!(program.processor().bus(), 7);
    assert_eq!(program.processor().get_memory_loc(100), 7);
    assert_eq!(program.status(), ProcessorStatus::Halted);
}

#[test]
fn integer_add_via_alu() {
    let mut program = load(&[24, 3, 25, 24, 4, 9, 16, 22]);
    drive(&mut program);
    assert_eq!(program.processor().bus(), 7);
    assert_eq!(program.status(), ProcessorStatus::Halted);
}

#[test]
fn compare_and_conditional_jump() {
    // 1: LOAD_IMM 5, 3: PUSH_ALU, 4: LOAD_IMM 5, 6: PUSH_ALU, 7: ALU_CMP 0,
    // 9: JUMP_IF 14, 11: LOAD_IMM 1, 13: HALT, 14: HALT
    let mut program = load(&[24, 5, 25, 24, 5, 25, 29, 0, 14, 14, 24, 1, 22, 22]);
    drive(&mut program);
    assert_eq!(program.status(), ProcessorStatus::Halted);
    assert_eq!(program.instruction_pointer(), 14);
    assert_eq!(program.processor().bus(), 5);
    assert!(program.processor().alu().compare_result);
}

#[test]
fn conditional_jump_not_taken_falls_through() {
    let mut program = load(&[24, 5, 25, 24, 6, 25, 29, 0, 14, 14, 24, 1, 22, 22]);
    drive(&mut program);
    assert_eq!(program.status(), ProcessorStatus::Halted);
    assert_eq!(program.instruction_pointer(), 13);
    assert_eq!(program.processor().bus(), 1);
    assert!(!program.processor().alu().compare_result);
}

#[test]
fn breakpoint_round_trip() {
    let mut program = load(&[24, 42, 22]);
    program.set_breakpoint(3);
    program.enable_breakpoints();
    drive(&mut program);
    assert_eq!(program.status(), ProcessorStatus::Paused);
    assert_eq!(program.instruction_pointer(), 3);
    assert_eq!(program.processor().bus(), 42);
    program.remove_breakpoint(3);
    drive(&mut program);
    assert_eq!(program.status(), ProcessorStatus::Halted);
}

#[test]
fn new_page_grows_memory() {
    // NEW_PAGE; LOAD_IMM 77; STORE_ABS 40000; LOAD_IMM 0; LOAD_ABS 40000; HALT
    let mut program = load(&[20, 24, 77, 2, 40000, 24, 0, 1, 40000, 22]);
    assert_eq!(program.processor().memory().pages(), 1);
    drive(&mut program);
    assert_eq!(program.processor().memory().pages(), 2);
    assert_eq!(program.status(), ProcessorStatus::Halted);
    assert_eq!(program.processor().fault(), None);
    assert_eq!(program.processor().bus(), 77);
    assert_eq!(program.processor().get_memory_loc(40000), 77);
}

#[test]
fn store_beyond_last_page_is_a_memory_fault() {
    let mut program = load(&[24, 77, 2, 40000, 22]);
    drive(&mut program);
    assert_eq!(program.status(), ProcessorStatus::Halted);
    assert_eq!(program.processor().fault(), Some(Fault::MemoryFault));
    assert_eq!(program.instruction_pointer(), 3);
    assert_eq!(program.processor().get_memory_loc(40000), 0);
    assert_eq!(program.processor().memory().pages(), 1);
}

#[test]
fn new_page_leaves_the_bus_alone() {
    let mut program = load(&[24, 9, 20, 22]);
    drive(&mut program);
    assert_eq!(program.processor().bus(), 9);
    assert_eq!(program.processor().memory().pages(), 2);
}

#[test]
fn syscall_goes_through_the_host() {
    // LOAD_IMM -2; SYSCALL 3; HALT
    let mut program = load(&[24, 0xffff_fffe, 21, 3, 22]);
    let report = program.run(100, None);
    assert_eq!(report.steps_taken, 1);
    assert_eq!(report.request, Some(HostRequest::Syscall { code: 3, arg: -2 }));
    assert_eq!(program.status(), ProcessorStatus::Running);
    assert_eq!(program.instruction_pointer(), 3);
    let report = program.run(100, Some(HostReply::Syscall(-7)));
    assert_eq!(report.request, None);
    assert_eq!(report.steps_taken, 2);
    assert_eq!(program.processor().bus(), 0xffff_fff9);
    assert_eq!(program.status(), ProcessorStatus::Halted);
}

#[test]
fn float_add_through_the_host() {
    // ALU_FLOAT; LOAD_IMM 1.5; PUSH_ALU; LOAD_IMM 2.25; ALU_ADD; GET_HI; HALT
    let mut program = load(&[19, 24, 1.5f32.to_bits(), 25, 24, 2.25f32.to_bits(), 9, 16, 22]);
    drive(&mut program);
    assert_eq!(program.status(), ProcessorStatus::Halted);
    assert_eq!(f32::from_bits(program.processor().bus()), 3.75);
    assert_eq!(program.processor().alu().lo, 0);
}

#[test]
fn float_multiply_through_the_host() {
    let mut program = load(&[19, 24, 1.5f32.to_bits(), 25, 24, 2.5f32.to_bits(), 11, 22]);
    drive(&mut program);
    let alu = program.processor().alu();
    let bits = ((alu.hi as u64) << 32) | alu.lo as u64;
    assert_eq!(f64::from_bits(bits), 3.75);
}

#[test]
fn float_divide_through_the_host() {
    // the recent operand (7.5) is divided by the older one (2.5)
    let mut program = load(&[19, 24, 2.5f32.to_bits(), 25, 24, 7.5f32.to_bits(), 12, 17, 22]);
    drive(&mut program);
    assert_eq!(f32::from_bits(program.processor().bus()), 3.0);
    assert_eq!(program.processor().alu().hi, 0);
}

#[test]
fn pause_opcode_pauses_and_continue_resumes() {
    let mut program = load(&[24, 1, 23, 24, 2, 22]);
    drive(&mut program);
    assert_eq!(program.status(), ProcessorStatus::Paused);
    assert_eq!(program.instruction_pointer(), 4);
    assert_eq!(program.processor().bus(), 1);
    drive(&mut program);
    assert_eq!(program.status(), ProcessorStatus::Halted);
    assert_eq!(program.processor().bus(), 2);
}

#[test]
fn unknown_opcode_halts_in_place() {
    for op in [8u32, 10, 34, 1000, u32::MAX] {
        let mut program = load(&[24, 5, op, 22]);
        drive(&mut program);
        assert_eq!(program.status(), ProcessorStatus::Halted);
        assert_eq!(program.processor().fault(), Some(Fault::UnknownOpcode));
        assert_eq!(program.instruction_pointer(), 3);
        assert_eq!(program.processor().bus(), 5);
    }
}

#[test]
fn budget_cap_leaves_the_machine_running() {
    // an endless loop: LOAD_IMM 1; JUMP
    let mut program = load(&[24, 1, 13]);
    let report = program.run(10, None);
    assert_eq!(report.steps_taken, 10);
    assert_eq!(report.request, None);
    assert_eq!(program.status(), ProcessorStatus::Running);
    let report = program.run(0, None);
    assert_eq!(report.steps_taken, 0);
    assert_eq!(program.status(), ProcessorStatus::Running);
}
