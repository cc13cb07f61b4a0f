//! The processor: fetch, decode and execute one instruction at a time.
//!
//! What only the host can compute (a system call, or arithmetic on
//! single-precision values) is not done here. `Processor::host_request` says
//! what the instruction at the instruction pointer needs, and
//! `Processor::step` takes the host's answer as a plain value.
use crate::alu::{decode_compare_mode, Alu, AluMode, ArithmeticFault};
use crate::bits::{bits_to_i32, i32_to_bits, unsigned_of};
use crate::memory::{Memory, PAGE_SIZE};
use crate::opcode::{decode, Opcode};
use crate::semantics::{
    answers, double_of, fault_of, single_of, syscall_of, Effect, ProcessorState,
};
use vstd::prelude::*;

verus! {

/// What a step tells the controller.
#[derive(Clone, Copy, Debug, PartialEq, Eq, Structural)]
pub enum StopCode {
    /// The machine paused itself.
    Pause,
    /// The machine halted.
    Halt,
    /// Nothing stands in the way of the next step.
    Proceed,
    /// Nothing was done: the instruction needs this from the host first.
    Await(HostRequest),
}

/// The lifecycle state that a debugger sees.
#[derive(Clone, Copy, Debug, PartialEq, Eq, Structural)]
pub enum ProcessorStatus {
    Paused,
    Halted,
    NotStarted,
    Running,
    Empty,
}

/// The number under which a debugger knows a status.
pub open spec fn status_code_of(status: ProcessorStatus) -> i32 {
    match status {
        ProcessorStatus::Paused => 0,
        ProcessorStatus::Halted => 1,
        ProcessorStatus::NotStarted => 2,
        ProcessorStatus::Running => 3,
        ProcessorStatus::Empty => 4,
    }
}

/// The number under which a debugger knows `status`.
pub fn status_code(status: ProcessorStatus) -> (r: i32)
    ensures
        r == status_code_of(status),
{
    match status {
        ProcessorStatus::Paused => 0,
        ProcessorStatus::Halted => 1,
        ProcessorStatus::NotStarted => 2,
        ProcessorStatus::Running => 3,
        ProcessorStatus::Empty => 4,
    }
}

/// Why the machine halted, where it did not halt by instruction.
#[derive(Clone, Copy, Debug, PartialEq, Eq, Structural)]
pub enum Fault {
    UnknownOpcode,
    MemoryFault,
    DivideByZero,
    IntegerOverflow,
}

/// Why a program cannot be loaded.
#[derive(Clone, Copy, Debug, PartialEq, Eq, Structural)]
pub enum InitializeError {
    /// The machine holds a program already.
    NotEmpty,
    /// The program does not fit in one page.
    TooLong,
}

/// Work that an instruction needs from the host.
#[derive(Clone, Copy, Debug, PartialEq, Eq, Structural)]
pub enum HostRequest {
    /// Call the host with `code` and `arg`; the answer is a `HostReply::Syscall`.
    Syscall { code: i32, arg: i32 },
    /// The single-precision sum `a + b` of two patterns, as a
    /// `HostReply::Single`.
    FloatAdd { a: u32, b: u32 },
    /// The single-precision product `a * b`, widened to double precision, as
    /// a `HostReply::Double`.
    FloatMultiply { a: u32, b: u32 },
    /// The single-precision quotient `a / b`, as a `HostReply::Single`.
    FloatDivide { a: u32, b: u32 },
}

/// The host's answer to a `HostRequest`.
#[derive(Clone, Copy, Debug, PartialEq, Eq, Structural)]
pub enum HostReply {
    /// What the system call returned.
    Syscall(i32),
    /// The bit pattern of a single-precision value.
    Single(u32),
    /// The bit pattern of a double-precision value.
    Double(u64),
}

/// The address `offset` cells away from `base`, the offset read as a signed
/// word and the sum wrapped to 32 bits.
pub open spec fn offset_address(base: u32, offset: u32) -> u32 {
    ((base + offset) % 0x1_0000_0000) as u32
}

/// Adds a signed offset, given as a bit pattern, to an address, wrapping to
/// 32 bits.
pub fn add_offset(base: u32, offset: u32) -> (r: u32)
    ensures
        r == offset_address(base, offset),
{
    base.wrapping_add(offset)
}

/// The single-precision pattern that a reply carries, zero where it carries
/// none.
pub fn single_reply(reply: Option<HostReply>) -> (r: u32)
    ensures
        r == single_of(reply),
{
    match reply {
        Some(HostReply::Single(v)) => v,
        _ => 0,
    }
}

/// The double-precision pattern that a reply carries, zero where it carries
/// none.
pub fn double_reply(reply: Option<HostReply>) -> (r: u64)
    ensures
        r == double_of(reply),
{
    match reply {
        Some(HostReply::Double(v)) => v,
        _ => 0,
    }
}

/// The system call result that a reply carries, zero where it carries none.
pub fn syscall_reply(reply: Option<HostReply>) -> (r: i32)
    ensures
        r == syscall_of(reply),
{
    match reply {
        Some(HostReply::Syscall(v)) => v,
        _ => 0,
    }
}

/// Whether `reply` is an answer of the kind that `request` asks for.
pub fn reply_answers(reply: Option<HostReply>, request: HostRequest) -> (r: bool)
    ensures
        r == answers(reply, request),
{
    match (request, reply) {
        (HostRequest::Syscall { .. }, Some(HostReply::Syscall(_))) => true,
        (HostRequest::FloatAdd { .. }, Some(HostReply::Single(_))) => true,
        (HostRequest::FloatMultiply { .. }, Some(HostReply::Double(_))) => true,
        (HostRequest::FloatDivide { .. }, Some(HostReply::Single(_))) => true,
        _ => false,
    }
}

/// The fault that the processor reports for a failed division.
pub fn fault_from(fault: ArithmeticFault) -> (r: Fault)
    ensures
        r == fault_of(fault),
{
    match fault {
        ArithmeticFault::DivideByZero => Fault::DivideByZero,
        ArithmeticFault::IntegerOverflow => Fault::IntegerOverflow,
    }
}

/// Whether `after` and `r` are what `effect` asks for on `before`, the
/// instruction pointer left alone: the new state and `Ok`, or the old state
/// and the fault.
pub open spec fn carried_out(
    before: ProcessorState,
    effect: Effect,
    after: ProcessorState,
    r: Result<(), Fault>,
) -> bool {
    match effect {
        Effect::Advance(s) => r is Ok && after == s,
        Effect::Hold(s) => r is Ok && after == s,
        Effect::Fails(fault) => r == Err::<(), Fault>(fault) && after == before,
    }
}

/// A processor: registers, an arithmetic/logic unit and paged memory.
pub struct Processor {
    bus: u32,
    alu: Alu,
    next: u32,
    status: ProcessorStatus,
    regions: Memory,
    fault: Option<Fault>,
    per_step_param_pointer: u32,
    per_step_dont_move: bool,
}

impl Processor {
    /// The registers and the memory, without the bookkeeping of a step.
    pub closed spec fn view(&self) -> ProcessorState {
        ProcessorState {
            bus: self.bus,
            alu: self.alu,
            next: self.next,
            status: self.status,
            cells: self.regions@,
            fault: self.fault,
        }
    }

    /// The memory is well formed.
    pub closed spec fn wf(&self) -> bool {
        self.regions.wf()
    }

    /// The number of operands that the current step has read.
    pub closed spec fn param_index(&self) -> nat {
        self.per_step_param_pointer as nat
    }

    /// Whether the current step has set the instruction pointer itself.
    pub closed spec fn hold_ip(&self) -> bool {
        self.per_step_dont_move
    }

    /// The number of pages of memory.
    pub closed spec fn page_count(&self) -> nat {
        self.regions.page_count()
    }

    /// Whether `other` differs from `self` at most in registers and memory:
    /// the bookkeeping of the step is the same.
    pub open spec fn same_step(&self, other: &Processor) -> bool {
        self.param_index() == other.param_index() && self.hold_ip() == other.hold_ip()
    }

    /// The memory is as long as its pages.
    pub proof fn lemma_cells_len(&self)
        requires
            self.wf(),
        ensures
            self@.cells.len() == self.page_count() * PAGE_SIZE,
    {
        self.regions.lemma_view();
    }

    /// A processor without memory, the instruction pointer at 1.
    pub fn new() -> (r: Processor)
        ensures
            r.wf(),
            r@ == ProcessorState::fresh(),
            r.page_count() == 0,
            r.param_index() == 0,
            !r.hold_ip(),
    {
        let bus: u32 = 0;
        let alu = Alu::new();
        let next: u32 = 1;
        let status = ProcessorStatus::Empty;
        let regions = Memory::new();
        let per_step_param_pointer: u32 = 0;
        let per_step_dont_move = false;
        Processor {
            bus,
            alu,
            next,
            status,
            regions,
            fault: None,
            per_step_param_pointer,
            per_step_dont_move,
        }
    }

    /// Loads a program into an empty machine: appends a page, writes `init`
    /// from address 0 on and makes the machine ready to start. Fails, and
    /// changes nothing, where the machine is not empty or `init` is longer
    /// than a page.
    pub fn initialize(&mut self, init: &[u32]) -> (r: Result<(), InitializeError>)
        requires
            old(self).wf(),
        ensures
            final(self).wf(),
            final(self).same_step(old(self)),
            old(self)@.status != ProcessorStatus::Empty ==> r == Err::<(), InitializeError>(
                InitializeError::NotEmpty,
            ),
            old(self)@.status == ProcessorStatus::Empty && init@.len() > PAGE_SIZE ==> r == Err::<
                (),
                InitializeError,
            >(InitializeError::TooLong),
            old(self)@.status == ProcessorStatus::Empty && init@.len() <= PAGE_SIZE ==> r is Ok,
            r is Ok ==> final(self)@ == old(self)@.initialized(init@),
            r is Ok ==> final(self).page_count() == old(self).page_count() + 1,
            r is Err ==> final(self)@ == old(self)@ && final(self).page_count() == old(
                self,
            ).page_count(),
    {
        match self.status {
            ProcessorStatus::Empty => {},
            _ => {
                return Err(InitializeError::NotEmpty);
            },
        }
        if init.len() > PAGE_SIZE {
            return Err(InitializeError::TooLong);
        }
        self.add_region();
        let ghost grown = self@.cells;
        proof {
            self.lemma_cells_len();
            assert(self.page_count() * PAGE_SIZE >= PAGE_SIZE) by (nonlinear_arith)
                requires
                    self.page_count() >= 1,
            ;
        }
        assert(self@.cells =~= Seq::new(
            grown.len(),
            |a: int|
                if a < 0 {
                    init@[a]
                } else {
                    grown[a]
                },
        ));
        let mut i: usize = 0;
        while i < init.len()
            invariant
                self.wf(),
                self.same_step(old(self)),
                i <= init@.len() <= PAGE_SIZE,
                grown.len() >= PAGE_SIZE,
                self.page_count() == old(self).page_count() + 1,
                self@ == (ProcessorState {
                    cells: Seq::new(
                        grown.len(),
                        |a: int|
                            if a < i {
                                init@[a]
                            } else {
                                grown[a]
                            },
                    ),
                    ..old(self)@
                }),
            decreases init@.len() - i,
        {
            let ghost before = self@.cells;
            let outcome = self.set_memory_loc(i as u32, init[i]);
            assert(outcome is Ok);
            i = i + 1;
            assert(self@.cells =~= Seq::new(
                grown.len(),
                |a: int|
                    if a < i {
                        init@[a]
                    } else {
                        grown[a]
                    },
            ));
        }
        self.status = ProcessorStatus::NotStarted;
        assert(self@.cells =~= old(self)@.initialized(init@).cells);
        Ok(())
    }

    /// The bus register.
    pub fn bus(&self) -> (r: u32)
        ensures
            r == self@.bus,
    {
        self.bus
    }

    /// The instruction pointer.
    pub fn instruction_pointer(&self) -> (r: u32)
        ensures
            r == self@.next,
    {
        self.next
    }

    /// The lifecycle state.
    pub fn status(&self) -> (r: ProcessorStatus)
        ensures
            r == self@.status,
    {
        self.status
    }

    /// Why the machine halted, if a fault halted it.
    pub fn fault(&self) -> (r: Option<Fault>)
        ensures
            r == self@.fault,
    {
        self.fault
    }

    /// The arithmetic/logic unit.
    pub fn alu(&self) -> (r: Alu)
        ensures
            r == self@.alu,
    {
        self.alu
    }

    /// The memory, for inspection.
    pub fn memory(&self) -> (r: &Memory)
        ensures
            r.wf() == self.wf(),
            r@ == self@.cells,
            r.page_count() == self.page_count(),
    {
        &self.regions
    }

    /// Sets the lifecycle state.
    pub fn set_status(&mut self, status: ProcessorStatus)
        ensures
            final(self)@ == old(self)@.with_status(status),
            final(self).wf() == old(self).wf(),
            final(self).page_count() == old(self).page_count(),
            final(self).same_step(old(self)),
    {
        self.status = status;
    }

    /// Reads the next operand of the instruction at the instruction pointer.
    pub fn get_param(&mut self) -> (r: u32)
        requires
            old(self).wf(),
            old(self)@.next + old(self).param_index() + 1 <= u32::MAX,
        ensures
            final(self).wf(),
            final(self)@ == old(self)@,
            final(self).param_index() == old(self).param_index() + 1,
            final(self).hold_ip() == old(self).hold_ip(),
            r == old(self)@.operand(old(self).param_index() + 1),
    {
        let n: u32 = self.next;
        let per_step_param_pointer: u32 = self.per_step_param_pointer + 1;
        let param: u32 = self.get_memory_loc(n + per_step_param_pointer);
        self.per_step_param_pointer = per_step_param_pointer;
        param
    }

    /// Marks the instruction pointer as set by the instruction itself.
    pub fn dont_move_param_pointer(&mut self)
        ensures
            final(self)@ == old(self)@,
            final(self).wf() == old(self).wf(),
            final(self).param_index() == old(self).param_index(),
            final(self).hold_ip(),
    {
        self.per_step_dont_move = true;
    }

    /// The cell at `location`, zero where no page holds it.
    pub fn get_memory_loc(&self, location: u32) -> (r: u32)
        requires
            self.wf(),
        ensures
            r == self@.read(location),
    {
        self.regions.read(location)
    }

    /// Stores `value` at `location`, or reports a memory fault and changes
    /// nothing where no page holds it.
    pub fn set_memory_loc(&mut self, location: u32, value: u32) -> (r: Result<(), Fault>)
        requires
            old(self).wf(),
        ensures
            final(self).wf(),
            final(self).same_step(old(self)),
            final(self).page_count() == old(self).page_count(),
            r is Ok <==> location < old(self)@.cells.len(),
            r is Ok ==> final(self)@ == (ProcessorState {
                cells: old(self)@.cells.update(location as int, value),
                ..old(self)@
            }),
            r is Err ==> r == Err::<(), Fault>(Fault::MemoryFault) && final(self)@ == old(self)@,
    {
        match self.regions.write(location, value) {
            Ok(()) => Ok(()),
            Err(_) => Err(Fault::MemoryFault),
        }
    }

    /// The cell at the address that lies the signed `offset` from `location`.
    pub fn r_get_memory(&self, location: u32, offset: i32) -> (r: u32)
        requires
            self.wf(),
        ensures
            r == self@.read(offset_address(location, unsigned_of(offset))),
    {
        let new_location: u32 = add_offset(location, i32_to_bits(offset));
        self.get_memory_loc(new_location)
    }

    /// Stores `value` at the address that lies the signed `offset` from
    /// `location`, or reports a memory fault and changes nothing where no
    /// page holds it.
    pub fn r_set_memory(&mut self, location: u32, offset: i32, value: u32) -> (r: Result<
        (),
        Fault,
    >)
        requires
            old(self).wf(),
        ensures
            final(self).wf(),
            final(self).same_step(old(self)),
            r is Ok <==> offset_address(location, unsigned_of(offset)) < old(self)@.cells.len(),
            r is Ok ==> final(self)@ == (ProcessorState {
                cells: old(self)@.cells.update(
                    offset_address(location, unsigned_of(offset)) as int,
                    value,
                ),
                ..old(self)@
            }),
            r is Err ==> r == Err::<(), Fault>(Fault::MemoryFault) && final(self)@ == old(self)@,
    {
        let new_location: u32 = add_offset(location, i32_to_bits(offset));
        self.set_memory_loc(new_location, value)
    }

    /// The page and the offset within it at which `location` lies, or `None`
    /// where no page holds it.
    pub fn locate(&self, location: u32) -> (r: Option<(usize, usize)>)
        requires
            self.wf(),
        ensures
            r is Some <==> location < self@.cells.len(),
            r is Some ==> r->Some_0.0 == location / (PAGE_SIZE as u32) && r->Some_0.1 == location
                % (PAGE_SIZE as u32) && r->Some_0.0 < self.page_count(),
    {
        self.regions.locate(location)
    }

    /// Loads the cell at the address that lies the signed `offset` from the
    /// instruction pointer.
    pub fn load_location_relative(&mut self, offset: u32)
        requires
            old(self).wf(),
        ensures
            final(self).wf(),
            final(self).same_step(old(self)),
            final(self)@ == old(self)@.with_bus(
                old(self)@.read(offset_address(old(self)@.next, offset)),
            ),
    {
        let next: u32 = self.next;
        self.bus = self.get_memory_loc(add_offset(next, offset));
    }

    /// Loads the cell at the address that lies the signed value of the bus
    /// from the instruction pointer.
    pub fn load_location_relative_with_bus(&mut self)
        requires
            old(self).wf(),
        ensures
            final(self).wf(),
            final(self).same_step(old(self)),
            final(self)@ == old(self)@.with_bus(
                old(self)@.read(offset_address(old(self)@.next, old(self)@.bus)),
            ),
    {
        let next: u32 = self.next;
        self.bus = self.get_memory_loc(add_offset(next, self.bus));
    }

    /// Stores the bus at the address that lies the signed `offset` from the
    /// instruction pointer.
    pub fn set_location_relative(&mut self, offset: u32) -> (r: Result<(), Fault>)
        requires
            old(self).wf(),
        ensures
            final(self).wf(),
            final(self).same_step(old(self)),
            carried_out(
                old(self)@,
                old(self)@.store(offset_address(old(self)@.next, offset)),
                final(self)@,
                r,
            ),
    {
        let value: u32 = self.bus;
        let next: u32 = self.next;
        self.set_memory_loc(add_offset(next, offset), value)
    }

    /// Pushes the bus onto the arithmetic/logic unit.
    pub fn push_to_alu(&mut self)
        ensures
            final(self).wf() == old(self).wf(),
            final(self).same_step(old(self)),
            final(self)@ == old(self)@.with_alu(old(self)@.alu.pushed(old(self)@.bus)),
    {
        self.alu.push_value(self.bus);
    }

    /// Pushes the bus and adds.
    pub fn add(&mut self, float_sum: u32)
        ensures
            final(self).wf() == old(self).wf(),
            final(self).same_step(old(self)),
            final(self)@ == old(self)@.with_alu(
                old(self)@.alu.pushed(old(self)@.bus).added(float_sum),
            ),
    {
        self.push_to_alu();
        self.alu.add(float_sum);
    }

    /// Pushes the bus and multiplies.
    pub fn multiply(&mut self, float_product: u64)
        ensures
            final(self).wf() == old(self).wf(),
            final(self).same_step(old(self)),
            final(self)@ == old(self)@.with_alu(
                old(self)@.alu.pushed(old(self)@.bus).multiplied(float_product),
            ),
    {
        self.push_to_alu();
        self.alu.multiply(float_product);
    }

    /// Pushes the bus and divides; where the division has no result, nothing
    /// changes, not even by the push.
    pub fn divide(&mut self, float_quotient: u32) -> (r: Result<(), Fault>)
        ensures
            final(self).wf() == old(self).wf(),
            final(self).same_step(old(self)),
            match old(self)@.alu.pushed(old(self)@.bus).divide_fault() {
                Some(fault) => r == Err::<(), Fault>(fault_of(fault)) && final(self)@ == old(
                    self,
                )@,
                None => r is Ok && final(self)@ == old(self)@.with_alu(
                    old(self)@.alu.pushed(old(self)@.bus).divided(float_quotient),
                ),
            },
    {
        let mut alu: Alu = self.alu;
        alu.push_value(self.bus);
        match alu.divide(float_quotient) {
            Ok(()) => {
                self.alu = alu;
                Ok(())
            },
            Err(fault) => Err(fault_from(fault)),
        }
    }

    /// Pushes the bus and ors the integers.
    pub fn or(&mut self)
        ensures
            final(self).wf() == old(self).wf(),
            final(self).same_step(old(self)),
            final(self)@ == old(self)@.with_alu(
                Alu {
                    value_a_int: old(self)@.alu.pushed(old(self)@.bus).value_a_int | old(
                        self,
                    )@.alu.pushed(old(self)@.bus).value_b_int,
                    ..old(self)@.alu.pushed(old(self)@.bus)
                },
            ),
    {
        self.push_to_alu();
        self.alu.bitwise_or();
    }

    /// Pushes the bus and ands the integers.
    pub fn and(&mut self)
        ensures
            final(self).wf() == old(self).wf(),
            final(self).same_step(old(self)),
            final(self)@ == old(self)@.with_alu(
                Alu {
                    value_a_int: old(self)@.alu.pushed(old(self)@.bus).value_a_int & old(
                        self,
                    )@.alu.pushed(old(self)@.bus).value_b_int,
                    ..old(self)@.alu.pushed(old(self)@.bus)
                },
            ),
    {
        self.push_to_alu();
        self.alu.bitwise_and();
    }

    /// Pushes the bus and shifts the recent integer left.
    pub fn shift_left(&mut self)
        ensures
            final(self).wf() == old(self).wf(),
            final(self).same_step(old(self)),
            final(self)@ == old(self)@.with_alu(
                Alu {
                    value_a_int: old(self)@.alu.pushed(old(self)@.bus).value_a_int << (old(
                        self,
                    )@.alu.pushed(old(self)@.bus).value_b_int & 31),
                    ..old(self)@.alu.pushed(old(self)@.bus)
                },
            ),
    {
        self.push_to_alu();
        self.alu.shift_left();
    }

    /// Pushes the bus and shifts the recent integer right.
    pub fn shift_right(&mut self)
        ensures
            final(self).wf() == old(self).wf(),
            final(self).same_step(old(self)),
            final(self)@ == old(self)@.with_alu(
                Alu {
                    value_a_int: old(self)@.alu.pushed(old(self)@.bus).value_a_int >> (old(
                        self,
                    )@.alu.pushed(old(self)@.bus).value_b_int & 31),
                    ..old(self)@.alu.pushed(old(self)@.bus)
                },
            ),
    {
        self.push_to_alu();
        self.alu.shift_right();
    }

    /// Sets the relation that `value` selects and compares; any other value
    /// changes nothing.
    pub fn alu_compare_with_mode(&mut self, value: u32)
        ensures
            final(self).wf() == old(self).wf(),
            final(self).same_step(old(self)),
            final(self)@ == (match crate::alu::compare_mode_of(value) {
                Some(mode) => old(self)@.with_alu(
                    (Alu { compare_mode: mode, ..old(self)@.alu }).compared(),
                ),
                None => old(self)@,
            }),
    {
        match decode_compare_mode(value) {
            Some(mode) => {
                self.alu.compare_mode = mode;
                self.alu.cmp();
            },
            None => {},
        }
    }

    /// Sets the instruction pointer.
    pub fn jump(&mut self, jump_to: u32)
        ensures
            final(self).wf() == old(self).wf(),
            final(self).same_step(old(self)),
            final(self)@ == old(self)@.with_next(jump_to),
    {
        self.next = jump_to;
    }

    /// Appends a page of zero cells to the memory.
    pub fn add_region(&mut self)
        requires
            old(self).wf(),
        ensures
            final(self).wf(),
            final(self).same_step(old(self)),
            final(self).page_count() == old(self).page_count() + 1,
            final(self)@ == old(self)@.with_new_page(),
    {
        self.regions.append_page();
    }

    /// Puts the result of a system call on the bus.
    pub fn syscall(&mut self, result: i32)
        ensures
            final(self).wf() == old(self).wf(),
            final(self).same_step(old(self)),
            final(self)@ == old(self)@.with_bus(unsigned_of(result)),
    {
        self.bus = i32_to_bits(result);
    }

    /// Loads the cell at `location`.
    pub fn load_location(&mut self, location: u32)
        requires
            old(self).wf(),
        ensures
            final(self).wf(),
            final(self).same_step(old(self)),
            final(self)@ == old(self)@.with_bus(old(self)@.read(location)),
    {
        self.bus = self.get_memory_loc(location);
    }

    /// Stores the bus at `location`.
    pub fn set_location(&mut self, location: u32) -> (r: Result<(), Fault>)
        requires
            old(self).wf(),
        ensures
            final(self).wf(),
            final(self).same_step(old(self)),
            carried_out(old(self)@, old(self)@.store(location), final(self)@, r),
    {
        let value: u32 = self.bus;
        self.set_memory_loc(location, value)
    }

    /// Loads the cell at `base + offset`.
    pub fn load_with_constant_offset_to_bus(&mut self, base: u32, offset: u32) -> (r: Result<
        (),
        Fault,
    >)
        requires
            old(self).wf(),
        ensures
            final(self).wf(),
            final(self).same_step(old(self)),
            carried_out(old(self)@, old(self)@.load_sum(base, offset), final(self)@, r),
    {
        match base.checked_add(offset) {
            Some(location) => {
                let val: u32 = self.get_memory_loc(location);
                self.bus = val;
                Ok(())
            },
            None => Err(Fault::MemoryFault),
        }
    }

    /// Loads the cell at `base` plus the cell at `offset_pointer`.
    pub fn load_with_variable_offset_to_bus(&mut self, base: u32, offset_pointer: u32) -> (r: Result<
        (),
        Fault,
    >)
        requires
            old(self).wf(),
        ensures
            final(self).wf(),
            final(self).same_step(old(self)),
            carried_out(
                old(self)@,
                old(self)@.load_sum(base, old(self)@.read(offset_pointer)),
                final(self)@,
                r,
            ),
    {
        let offset: u32 = self.get_memory_loc(offset_pointer);
        self.load_with_constant_offset_to_bus(base, offset)
    }

    /// Stores the bus at `base + offset`.
    pub fn save_with_constant_offset_from_bus(&mut self, base: u32, offset: u32) -> (r: Result<
        (),
        Fault,
    >)
        requires
            old(self).wf(),
        ensures
            final(self).wf(),
            final(self).same_step(old(self)),
            carried_out(old(self)@, old(self)@.store_sum(base, offset), final(self)@, r),
    {
        let value: u32 = self.bus;
        match base.checked_add(offset) {
            Some(location) => self.set_memory_loc(location, value),
            None => Err(Fault::MemoryFault),
        }
    }

    /// Stores the bus at `base` plus the cell at `offset_pointer`.
    pub fn save_with_variable_offset_from_bus(&mut self, base: u32, offset_pointer: u32) -> (r: Result<
        (),
        Fault,
    >)
        requires
            old(self).wf(),
        ensures
            final(self).wf(),
            final(self).same_step(old(self)),
            carried_out(
                old(self)@,
                old(self)@.store_sum(base, old(self)@.read(offset_pointer)),
                final(self)@,
                r,
            ),
    {
        let offset: u32 = self.get_memory_loc(offset_pointer);
        self.save_with_constant_offset_from_bus(base, offset)
    }

    /// Puts `value` on the bus.
    pub fn load_immediate(&mut self, value: u32)
        ensures
            final(self).wf() == old(self).wf(),
            final(self).same_step(old(self)),
            final(self)@ == old(self)@.with_bus(value),
    {
        self.bus = value;
    }

    /// Switches the unit to float mode, keeping the bits of its operands.
    pub fn alu_to_float(&mut self)
        ensures
            final(self).wf() == old(self).wf(),
            final(self).same_step(old(self)),
            final(self)@ == old(self)@.with_alu(old(self)@.alu.float_from_bits()),
    {
        self.alu.mode_float_save_bits();
    }

    /// Switches the unit to integer mode, keeping the bits of its operands.
    pub fn alu_to_int(&mut self)
        ensures
            final(self).wf() == old(self).wf(),
            final(self).same_step(old(self)),
            final(self)@ == old(self)@.with_alu(old(self)@.alu.int_from_bits()),
    {
        self.alu.mode_int_save_bits();
    }

    /// Puts the low result word on the bus.
    pub fn get_lo(&mut self)
        ensures
            final(self).wf() == old(self).wf(),
            final(self).same_step(old(self)),
            final(self)@ == old(self)@.with_bus(old(self)@.alu.lo),
    {
        self.bus = self.alu.lo;
    }

    /// Puts the high result word on the bus.
    pub fn get_hi(&mut self)
        ensures
            final(self).wf() == old(self).wf(),
            final(self).same_step(old(self)),
            final(self)@ == old(self)@.with_bus(old(self)@.alu.hi),
    {
        self.bus = self.alu.hi;
    }

    /// Whether the instruction at the instruction pointer has no room for
    /// its operands or its successor.
    pub fn out_of_space(&self) -> (r: bool)
        requires
            self.wf(),
        ensures
            r == self@.out_of_space(),
    {
        match decode(self.get_memory_loc(self.next)) {
            Some(op) => {
                let count: u32 = op.operand_count();
                let room: u32 = u32::MAX - self.next;
                let sets_pointer: bool = match op {
                    Opcode::Jump => true,
                    Opcode::Halt => true,
                    Opcode::JumpIf => self.alu.compare_result,
                    _ => false,
                };
                count > room || (!sets_pointer && count + 1 > room)
            },
            None => false,
        }
    }

    /// What the host has to compute before the instruction at the
    /// instruction pointer can be done, if anything.
    pub fn host_request(&self) -> (r: Option<HostRequest>)
        requires
            self.wf(),
        ensures
            r == self@.host_request(),
    {
        if self.out_of_space() {
            return None;
        }
        let float_mode: bool = match self.alu.mode {
            AluMode::Float => true,
            AluMode::Int => false,
        };
        match decode(self.get_memory_loc(self.next)) {
            Some(Opcode::Syscall) => {
                let code: u32 = self.get_memory_loc(self.next + 1);
                Some(HostRequest::Syscall { code: bits_to_i32(code), arg: bits_to_i32(self.bus) })
            },
            Some(Opcode::AluAdd) => if float_mode {
                Some(HostRequest::FloatAdd { a: self.bus, b: self.alu.value_a_float })
            } else {
                None
            },
            Some(Opcode::AluMul) => if float_mode {
                Some(HostRequest::FloatMultiply { a: self.bus, b: self.alu.value_a_float })
            } else {
                None
            },
            Some(Opcode::AluDiv) => if float_mode {
                Some(HostRequest::FloatDivide { a: self.bus, b: self.alu.value_a_float })
            } else {
                None
            },
            _ => None,
        }
    }

    /// Halts the machine on `fault`, the instruction pointer left where it is.
    pub fn halt_on(&mut self, fault: Fault)
        ensures
            final(self).wf() == old(self).wf(),
            final(self).param_index() == old(self).param_index(),
            final(self).hold_ip(),
            final(self)@ == old(self)@.halted_by(fault),
    {
        self.status = ProcessorStatus::Halted;
        self.fault = Some(fault);
        self.dont_move_param_pointer();
    }

    /// Does what the instruction at the instruction pointer asks for, short
    /// of moving the pointer past it: reads its operands and changes
    /// registers and memory, or reports a fault and changes nothing.
    #[verifier::rlimit(40)]
    pub fn execute(&mut self, reply: Option<HostReply>) -> (r: Result<(), Fault>)
        requires
            old(self).wf(),
            !old(self)@.out_of_space(),
            old(self).param_index() == 0,
            !old(self).hold_ip(),
        ensures
            final(self).wf(),
            carried_out(old(self)@, old(self)@.effect(reply), final(self)@, r),
            final(self).hold_ip() == (old(self)@.effect(reply) is Hold),
            old(self)@.effect(reply) is Advance ==> final(self).param_index() == old(
                self,
            )@.opcode()->Some_0.operands(),
    {
        proof {
            reveal(ProcessorState::effect);
        }
        let n: u32 = self.next;
        let op: Opcode = match decode(self.get_memory_loc(n)) {
            Some(op) => op,
            None => {
                return Err(Fault::UnknownOpcode);
            },
        };
        let mut outcome: Result<(), Fault> = Ok(());
        match op {
            Opcode::Nop => {},
            Opcode::LoadAbs => {
                let param = self.get_param();
                self.load_location(param);
            },
            Opcode::StoreAbs => {
                let param = self.get_param();
                outcome = self.set_location(param);
            },
            Opcode::LoadRel => {
                let param = self.get_param();
                self.load_location_relative(param);
            },
            Opcode::StoreRel => {
                let param = self.get_param();
                outcome = self.set_location_relative(param);
            },
            Opcode::LoadOffK => {
                let pointer = self.get_param();
                let constant = self.get_param();
                outcome = self.load_with_constant_offset_to_bus(pointer, constant);
            },
            Opcode::StoreOffK => {
                let pointer = self.get_param();
                let constant = self.get_param();
                outcome = self.save_with_constant_offset_from_bus(pointer, constant);
            },
            Opcode::LoadRelBus => {
                self.load_location_relative_with_bus();
            },
            Opcode::AluAdd => {
                self.add(single_reply(reply));
            },
            Opcode::AluMul => {
                self.multiply(double_reply(reply));
            },
            Opcode::AluDiv => {
                outcome = self.divide(single_reply(reply));
            },
            Opcode::Jump => {
                let b = self.bus;
                self.jump(b);
                self.dont_move_param_pointer();
            },
            Opcode::JumpIf => {
                let param = self.get_param();
                if self.alu.compare_result {
                    self.dont_move_param_pointer();
                    self.jump(param);
                }
            },
            Opcode::LinkIf => {
                if self.alu.compare_result {
                    self.bus = n;
                }
            },
            Opcode::GetHi => {
                self.get_hi();
            },
            Opcode::GetLo => {
                self.get_lo();
            },
            Opcode::AluInt => {
                self.alu_to_int();
            },
            Opcode::AluFloat => {
                self.alu_to_float();
            },
            Opcode::NewPage => {
                self.add_region();
            },
            Opcode::Syscall => {
                let _code = self.get_param();
                self.syscall(syscall_reply(reply));
            },
            Opcode::Halt => {
                self.status = ProcessorStatus::Halted;
                self.dont_move_param_pointer();
            },
            Opcode::Pause => {
                self.status = ProcessorStatus::Paused;
            },
            Opcode::LoadImm => {
                let param = self.get_param();
                self.load_immediate(param);
            },
            Opcode::PushAlu => {
                self.push_to_alu();
            },
            Opcode::LoadOffV => {
                let base = self.get_param();
                let offset_pointer = self.get_param();
                outcome = self.load_with_variable_offset_to_bus(base, offset_pointer);
            },
            Opcode::StoreOffV => {
                let base = self.get_param();
                let offset_pointer = self.get_param();
                outcome = self.save_with_variable_offset_from_bus(base, offset_pointer);
            },
            Opcode::GetIp => {
                let counter = self.next;
                self.bus = counter;
            },
            Opcode::AluCmp => {
                let mode = self.get_param();
                self.alu_compare_with_mode(mode);
            },
            Opcode::AluOr => {
                self.or();
            },
            Opcode::AluAnd => {
                self.and();
            },
            Opcode::AluShl => {
                self.shift_left();
            },
            Opcode::AluShr => {
                self.shift_right();
            },
        };
        outcome
    }

    /// Executes the instruction at the instruction pointer, given the host's
    /// answer to what it needs, and moves the pointer on.
    ///
    /// Where the instruction needs an answer that `reply` does not give,
    /// nothing changes and the request is returned.
    pub fn step(&mut self, reply: Option<HostReply>) -> (r: StopCode)
        requires
            old(self).wf(),
        ensures
            final(self).wf(),
            final(self)@ == old(self)@.stepped(reply),
            r == old(self)@.stop_code(reply),
            !final(self).hold_ip(),
            !old(self)@.out_of_space() && !old(self)@.waits(reply) && !old(self)@.sets_pointer()
                && !(old(self)@.effect(reply) is Fails) ==> final(self)@.next == old(self)@.next
                + 1 + old(self)@.opcode()->Some_0.operands(),
    {
        proof {
            self@.lemma_effect_shape(reply);
        }
        let n: u32 = self.next;
        let mut stop_code = StopCode::Proceed;
        self.per_step_param_pointer = 0;
        self.per_step_dont_move = false;
        let op: Option<Opcode> = decode(self.get_memory_loc(n));
        if self.out_of_space() {
            self.halt_on(Fault::MemoryFault);
            self.per_step_dont_move = false;
            return StopCode::Halt;
        }
        match self.host_request() {
            Some(request) => {
                if !reply_answers(reply, request) {
                    return StopCode::Await(request);
                }
            },
            None => {},
        }
        match self.execute(reply) {
            Ok(()) => {
                match op {
                    Some(Opcode::Halt) => {
                        stop_code = StopCode::Halt;
                    },
                    Some(Opcode::Pause) => {
                        stop_code = StopCode::Pause;
                    },
                    _ => {},
                }
            },
            Err(fault) => {
                stop_code = StopCode::Halt;
                self.halt_on(fault);
            },
        }
        if !self.per_step_dont_move {
            self.next = self.next + (self.per_step_param_pointer + 1);
        } else {
            self.per_step_dont_move = false;
        }
        stop_code
    }
}

} // verus!
