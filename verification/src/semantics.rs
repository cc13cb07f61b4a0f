//! What one instruction does, stated over a flat memory.
//!
//! `ProcessorState` is the mathematical view of a processor, and
//! `ProcessorState::stepped` is the state after one step. The executable
//! processor is proved to follow it.
use crate::alu::{compare_mode_of, Alu, AluMode, ArithmeticFault};
use crate::bits::{signed_of, unsigned_of};
use crate::memory::{applied, cell_at, MemoryOp, PAGE_SIZE};
use crate::opcode::{opcode_of, Opcode};
use crate::processor::{
    offset_address, Fault, HostReply, HostRequest, ProcessorStatus, StopCode,
};
use vstd::prelude::*;

verus! {

/// The registers and memory of a processor.
pub struct ProcessorState {
    /// The bus register.
    pub bus: u32,
    /// The arithmetic/logic unit.
    pub alu: Alu,
    /// The instruction pointer.
    pub next: u32,
    /// The lifecycle state.
    pub status: ProcessorStatus,
    /// All cells in address order; its length is a multiple of the page size.
    pub cells: Seq<u32>,
    /// Why the machine halted, if a fault halted it.
    pub fault: Option<Fault>,
}

/// What an instruction does to the state, before the instruction pointer
/// moves on.
pub enum Effect {
    /// The instruction is done; the pointer moves past it and its operands.
    Advance(ProcessorState),
    /// The instruction is done and has set the pointer itself.
    Hold(ProcessorState),
    /// The instruction cannot be done.
    Fails(Fault),
}

/// The fault that the processor reports for a failed division.
pub open spec fn fault_of(fault: ArithmeticFault) -> Fault {
    match fault {
        ArithmeticFault::DivideByZero => Fault::DivideByZero,
        ArithmeticFault::IntegerOverflow => Fault::IntegerOverflow,
    }
}

/// The single-precision pattern that a reply carries, zero where it carries
/// none.
pub open spec fn single_of(reply: Option<HostReply>) -> u32 {
    match reply {
        Some(HostReply::Single(v)) => v,
        _ => 0,
    }
}

/// The double-precision pattern that a reply carries, zero where it carries
/// none.
pub open spec fn double_of(reply: Option<HostReply>) -> u64 {
    match reply {
        Some(HostReply::Double(v)) => v,
        _ => 0,
    }
}

/// The system call result that a reply carries, zero where it carries none.
pub open spec fn syscall_of(reply: Option<HostReply>) -> i32 {
    match reply {
        Some(HostReply::Syscall(v)) => v,
        _ => 0,
    }
}

/// Whether `reply` is an answer of the kind that `request` asks for.
pub open spec fn answers(reply: Option<HostReply>, request: HostRequest) -> bool {
    match request {
        HostRequest::Syscall { .. } => reply is Some && reply->Some_0 is Syscall,
        HostRequest::FloatAdd { .. } => reply is Some && reply->Some_0 is Single,
        HostRequest::FloatMultiply { .. } => reply is Some && reply->Some_0 is Double,
        HostRequest::FloatDivide { .. } => reply is Some && reply->Some_0 is Single,
    }
}

impl ProcessorState {
    /// The state of a processor before anything was loaded: no memory, the
    /// instruction pointer at 1.
    pub open spec fn fresh() -> ProcessorState {
        ProcessorState {
            bus: 0,
            alu: Alu {
                value_a_int: 0,
                value_b_int: 0,
                value_a_float: 0,
                value_b_float: 0,
                compare_result: false,
                compare_mode: crate::alu::AluCompareMode::Equal,
                hi: 0,
                lo: 0,
                mode: AluMode::Int,
            },
            next: 1,
            status: ProcessorStatus::Empty,
            cells: Seq::empty(),
            fault: None,
        }
    }

    /// The state after `init` was loaded: one more page of zero cells, then
    /// the cells of `init` from address 0 on, and the machine ready to start.
    pub open spec fn initialized(self, init: Seq<u32>) -> ProcessorState {
        let grown = self.with_new_page().cells;
        ProcessorState {
            cells: Seq::new(
                grown.len(),
                |a: int|
                    if a < init.len() {
                        init[a]
                    } else {
                        grown[a]
                    },
            ),
            status: ProcessorStatus::NotStarted,
            ..self
        }
    }

    /// The cell at address `a`: zero where no page holds it.
    pub open spec fn read(self, a: u32) -> u32 {
        cell_at(self.cells, a)
    }

    /// The instruction at the instruction pointer, where the cell there
    /// stands for one.
    pub open spec fn opcode(self) -> Option<Opcode> {
        opcode_of(self.read(self.next))
    }

    /// The `k`-th operand of the instruction at the instruction pointer,
    /// counted from 1.
    pub open spec fn operand(self, k: nat) -> u32 {
        self.read((self.next + k) as u32)
    }

    /// The state with another bus value.
    pub open spec fn with_bus(self, bus: u32) -> ProcessorState {
        ProcessorState { bus, ..self }
    }

    /// The state with another arithmetic/logic unit.
    pub open spec fn with_alu(self, alu: Alu) -> ProcessorState {
        ProcessorState { alu, ..self }
    }

    /// The state with another instruction pointer.
    pub open spec fn with_next(self, next: u32) -> ProcessorState {
        ProcessorState { next, ..self }
    }

    /// The state with another status.
    pub open spec fn with_status(self, status: ProcessorStatus) -> ProcessorState {
        ProcessorState { status, ..self }
    }

    /// The state halted by `fault`, nothing else changed.
    pub open spec fn halted_by(self, fault: Fault) -> ProcessorState {
        ProcessorState { status: ProcessorStatus::Halted, fault: Some(fault), ..self }
    }

    /// The state with one more page of zero cells.
    pub open spec fn with_new_page(self) -> ProcessorState {
        ProcessorState { cells: self.cells + Seq::new(PAGE_SIZE as nat, |i: int| 0u32), ..self }
    }

    /// A load from the sum of two unsigned words: a fault where the sum is
    /// no address.
    pub open spec fn load_sum(self, base: u32, offset: u32) -> Effect {
        if base + offset > u32::MAX {
            Effect::Fails(Fault::MemoryFault)
        } else {
            Effect::Advance(self.with_bus(self.read((base + offset) as u32)))
        }
    }

    /// A store of the bus to address `a`: a fault where no page holds `a`.
    pub open spec fn store(self, a: u32) -> Effect {
        if a < self.cells.len() {
            Effect::Advance(ProcessorState { cells: self.cells.update(a as int, self.bus), ..self })
        } else {
            Effect::Fails(Fault::MemoryFault)
        }
    }

    /// A store of the bus to the sum of two unsigned words: a fault where
    /// the sum is no address or no page holds it.
    pub open spec fn store_sum(self, base: u32, offset: u32) -> Effect {
        if base + offset > u32::MAX {
            Effect::Fails(Fault::MemoryFault)
        } else {
            self.store((base + offset) as u32)
        }
    }

    /// What the host has to compute before the instruction at the
    /// instruction pointer can be done, if anything: the result of a system
    /// call, or in float mode that of the arithmetic on the bus (`a`) and
    /// the recent operand (`b`).
    pub open spec fn host_request(self) -> Option<HostRequest> {
        if self.out_of_space() {
            None
        } else {
            match self.opcode() {
                Some(Opcode::Syscall) => Some(
                    HostRequest::Syscall {
                        code: signed_of(self.operand(1)),
                        arg: signed_of(self.bus),
                    },
                ),
                Some(Opcode::AluAdd) if self.alu.mode == AluMode::Float => Some(
                    HostRequest::FloatAdd { a: self.bus, b: self.alu.value_a_float },
                ),
                Some(Opcode::AluMul) if self.alu.mode == AluMode::Float => Some(
                    HostRequest::FloatMultiply { a: self.bus, b: self.alu.value_a_float },
                ),
                Some(Opcode::AluDiv) if self.alu.mode == AluMode::Float => Some(
                    HostRequest::FloatDivide { a: self.bus, b: self.alu.value_a_float },
                ),
                _ => None,
            }
        }
    }

    /// Whether the instruction at the instruction pointer sets the pointer
    /// itself: a jump that is taken, or a halt.
    pub open spec fn sets_pointer(self) -> bool {
        match self.opcode() {
            Some(Opcode::Jump) => true,
            Some(Opcode::Halt) => true,
            Some(Opcode::JumpIf) => self.alu.compare_result,
            _ => false,
        }
    }

    /// Whether the instruction at the instruction pointer, being one, has an
    /// operand beyond the last address, or would move the pointer beyond it.
    pub open spec fn out_of_space(self) -> bool {
        match self.opcode() {
            Some(op) => self.next + op.operands() > u32::MAX || (!self.sets_pointer() && self.next
                + op.operands() + 1 > u32::MAX),
            None => false,
        }
    }

    /// Whether a step with `reply` does nothing but ask the host.
    pub open spec fn waits(self, reply: Option<HostReply>) -> bool {
        self.host_request() is Some && !answers(reply, self.host_request()->Some_0)
    }

    /// What the instruction at the instruction pointer does, given the
    /// host's answer.
    #[verifier::opaque]
    pub open spec fn effect(self, reply: Option<HostReply>) -> Effect {
        let first = self.operand(1);
        let second = self.operand(2);
        let pushed = self.alu.pushed(self.bus);
        match self.opcode() {
            None => Effect::Fails(Fault::UnknownOpcode),
            Some(op) => match op {
                Opcode::Nop => Effect::Advance(self),
                Opcode::LoadAbs => Effect::Advance(self.with_bus(self.read(first))),
                Opcode::StoreAbs => self.store(first),
                Opcode::LoadRel => Effect::Advance(
                    self.with_bus(self.read(offset_address(self.next, first))),
                ),
                Opcode::StoreRel => self.store(offset_address(self.next, first)),
                Opcode::LoadOffK => self.load_sum(first, second),
                Opcode::StoreOffK => self.store_sum(first, second),
                Opcode::LoadRelBus => Effect::Advance(
                    self.with_bus(self.read(offset_address(self.next, self.bus))),
                ),
                Opcode::AluAdd => Effect::Advance(self.with_alu(pushed.added(single_of(reply)))),
                Opcode::AluMul => Effect::Advance(
                    self.with_alu(pushed.multiplied(double_of(reply))),
                ),
                Opcode::AluDiv => match pushed.divide_fault() {
                    Some(fault) => Effect::Fails(fault_of(fault)),
                    None => Effect::Advance(self.with_alu(pushed.divided(single_of(reply)))),
                },
                Opcode::Jump => Effect::Hold(self.with_next(self.bus)),
                Opcode::JumpIf => if self.alu.compare_result {
                    Effect::Hold(self.with_next(first))
                } else {
                    Effect::Advance(self)
                },
                Opcode::LinkIf => if self.alu.compare_result {
                    Effect::Advance(self.with_bus(self.next))
                } else {
                    Effect::Advance(self)
                },
                Opcode::GetHi => Effect::Advance(self.with_bus(self.alu.hi)),
                Opcode::GetLo => Effect::Advance(self.with_bus(self.alu.lo)),
                Opcode::AluInt => Effect::Advance(self.with_alu(self.alu.int_from_bits())),
                Opcode::AluFloat => Effect::Advance(self.with_alu(self.alu.float_from_bits())),
                Opcode::NewPage => Effect::Advance(self.with_new_page()),
                Opcode::Syscall => Effect::Advance(self.with_bus(unsigned_of(syscall_of(reply)))),
                Opcode::Halt => Effect::Hold(self.with_status(ProcessorStatus::Halted)),
                Opcode::Pause => Effect::Advance(self.with_status(ProcessorStatus::Paused)),
                Opcode::LoadImm => Effect::Advance(self.with_bus(first)),
                Opcode::PushAlu => Effect::Advance(self.with_alu(pushed)),
                Opcode::LoadOffV => self.load_sum(first, self.read(second)),
                Opcode::StoreOffV => self.store_sum(first, self.read(second)),
                Opcode::GetIp => Effect::Advance(self.with_bus(self.next)),
                Opcode::AluCmp => match compare_mode_of(first) {
                    Some(mode) => Effect::Advance(
                        self.with_alu((Alu { compare_mode: mode, ..self.alu }).compared()),
                    ),
                    None => Effect::Advance(self),
                },
                Opcode::AluOr => Effect::Advance(
                    self.with_alu(
                        Alu { value_a_int: pushed.value_a_int | pushed.value_b_int, ..pushed },
                    ),
                ),
                Opcode::AluAnd => Effect::Advance(
                    self.with_alu(
                        Alu { value_a_int: pushed.value_a_int & pushed.value_b_int, ..pushed },
                    ),
                ),
                Opcode::AluShl => Effect::Advance(
                    self.with_alu(
                        Alu {
                            value_a_int: pushed.value_a_int << (pushed.value_b_int & 31),
                            ..pushed
                        },
                    ),
                ),
                Opcode::AluShr => Effect::Advance(
                    self.with_alu(
                        Alu {
                            value_a_int: pushed.value_a_int >> (pushed.value_b_int & 31),
                            ..pushed
                        },
                    ),
                ),
            },
        }
    }

    /// The shape of every effect: only a taken jump or a halt sets the
    /// pointer; no other instruction touches it; only halt and pause change
    /// the status; no instruction records a fault; and only what is no
    /// instruction fails as an unknown opcode.
    #[verifier::rlimit(40)]
    pub proof fn lemma_effect_shape(self, reply: Option<HostReply>)
        ensures
            self.effect(reply) is Hold <==> self.sets_pointer(),
            self.effect(reply) is Advance ==> self.effect(reply)->Advance_0.next == self.next,
            self.opcode() == Some(Opcode::Halt) ==> self.effect(reply) == Effect::Hold(
                self.with_status(ProcessorStatus::Halted),
            ),
            self.opcode() == Some(Opcode::Pause) ==> self.effect(reply) == Effect::Advance(
                self.with_status(ProcessorStatus::Paused),
            ),
            self.effect(reply) is Advance && self.opcode() != Some(Opcode::Pause) ==> self.effect(
                reply,
            )->Advance_0.status == self.status,
            self.effect(reply) is Hold && self.opcode() != Some(Opcode::Halt) ==> self.effect(
                reply,
            )->Hold_0.status == self.status,
            self.effect(reply) is Advance ==> self.effect(reply)->Advance_0.fault == self.fault,
            self.effect(reply) is Hold ==> self.effect(reply)->Hold_0.fault == self.fault,
            self.opcode() is None <==> self.effect(reply) == Effect::Fails(
                Fault::UnknownOpcode,
            ),
    {
        reveal(ProcessorState::effect);
        match self.opcode() {
            None => {},
            Some(op) => {
                match op {
                    Opcode::StoreAbs | Opcode::StoreRel | Opcode::StoreOffK | Opcode::StoreOffV => {
                    },
                    Opcode::LoadOffK | Opcode::LoadOffV => {},
                    Opcode::AluAdd | Opcode::AluMul | Opcode::AluDiv => {},
                    Opcode::Jump | Opcode::JumpIf | Opcode::LinkIf => {},
                    Opcode::Halt | Opcode::Pause => {},
                    Opcode::AluCmp => {},
                    Opcode::AluOr | Opcode::AluAnd | Opcode::AluShl | Opcode::AluShr => {},
                    _ => {},
                }
            },
        }
    }

    /// The state after one step with `reply`.
    ///
    /// An instruction without room for its operands or its successor halts the
    /// machine with a memory fault. An instruction that waits for the host
    /// changes nothing. A fault changes the status and records itself, and
    /// nothing else.
    pub open spec fn stepped(self, reply: Option<HostReply>) -> ProcessorState {
        if self.out_of_space() {
            self.halted_by(Fault::MemoryFault)
        } else if self.waits(reply) {
            self
        } else {
            match self.effect(reply) {
                Effect::Advance(s) => s.with_next(
                    (self.next + self.opcode()->Some_0.operands() + 1) as u32,
                ),
                Effect::Hold(s) => s,
                Effect::Fails(fault) => self.halted_by(fault),
            }
        }
    }

    /// A step that does not wait, fault or set the pointer itself moves the
    /// pointer past the opcode and its operands.
    pub proof fn lemma_pointer_advances(self, reply: Option<HostReply>)
        requires
            !self.out_of_space(),
            !self.waits(reply),
            self.effect(reply) is Advance,
        ensures
            self.opcode() is Some,
            self.stepped(reply).next == self.next + 1 + self.opcode()->Some_0.operands(),
    {
        self.lemma_effect_shape(reply);
    }

    /// A step that faults leaves the pointer at the instruction and halts
    /// the machine, with the fault recorded and nothing else changed.
    pub proof fn lemma_fault_halts(self, reply: Option<HostReply>)
        requires
            !self.waits(reply),
            self.out_of_space() || self.effect(reply) is Fails,
        ensures
            self.stepped(reply).status == ProcessorStatus::Halted,
            self.stepped(reply).fault is Some,
            self.stepped(reply) == self.halted_by(self.stepped(reply).fault->Some_0),
            self.stop_code(reply) == StopCode::Halt,
    {
    }

    /// The change that the instruction at the instruction pointer asks of
    /// the memory, if it asks for one: a store of the bus, or a new page.
    pub open spec fn memory_op(self) -> Option<MemoryOp> {
        let first = self.operand(1);
        let second = self.operand(2);
        match self.opcode() {
            Some(Opcode::StoreAbs) => Some(MemoryOp::Write(first, self.bus)),
            Some(Opcode::StoreRel) => Some(
                MemoryOp::Write(offset_address(self.next, first), self.bus),
            ),
            Some(Opcode::StoreOffK) => if first + second <= u32::MAX {
                Some(MemoryOp::Write((first + second) as u32, self.bus))
            } else {
                None
            },
            Some(Opcode::StoreOffV) => if first + self.read(second) <= u32::MAX {
                Some(MemoryOp::Write((first + self.read(second)) as u32, self.bus))
            } else {
                None
            },
            Some(Opcode::NewPage) => Some(MemoryOp::AppendPage),
            _ => None,
        }
    }

    /// A step changes the memory by the one change that its instruction asks
    /// for, or not at all: no cell changes but the target of a store.
    #[verifier::rlimit(40)]
    pub proof fn lemma_step_changes_memory_by_its_op(self, reply: Option<HostReply>)
        ensures
            self.stepped(reply).cells == self.cells || (self.memory_op() is Some
                && self.stepped(reply).cells == applied(self.cells, self.memory_op()->Some_0)),
    {
        reveal(ProcessorState::effect);
    }

    /// What a step with `reply` tells the controller.
    pub open spec fn stop_code(self, reply: Option<HostReply>) -> StopCode {
        if self.out_of_space() {
            StopCode::Halt
        } else if self.waits(reply) {
            StopCode::Await(self.host_request()->Some_0)
        } else {
            match self.effect(reply) {
                Effect::Fails(_) => StopCode::Halt,
                _ => if self.opcode() == Some(Opcode::Halt) {
                    StopCode::Halt
                } else if self.opcode() == Some(Opcode::Pause) {
                    StopCode::Pause
                } else {
                    StopCode::Proceed
                },
            }
        }
    }
}

} // verus!
