//! The debug controller: a processor, a set of breakpoints, and the
//! transitions between running, paused and halted.
use crate::processor::{
    HostReply, HostRequest, InitializeError, Processor, ProcessorStatus, StopCode,
};
use crate::semantics::ProcessorState;
use std::collections::HashSet;
use vstd::prelude::*;

verus! {

broadcast use vstd::std_specs::hash::group_hash_axioms;

/// The processor's state together with the breakpoints.
pub struct ProgramState {
    /// The registers and memory of the processor.
    pub machine: ProcessorState,
    /// The addresses at which execution pauses.
    pub breakpoints: Set<u32>,
    /// Whether breakpoints are looked at.
    pub do_breakpoints: bool,
}

impl ProgramState {
    /// The state of a new program: a fresh processor, no breakpoints, and
    /// breakpoints switched off.
    pub open spec fn fresh() -> ProgramState {
        ProgramState {
            machine: ProcessorState::fresh(),
            breakpoints: Set::empty(),
            do_breakpoints: false,
        }
    }

    /// The state with another processor state.
    pub open spec fn with_machine(self, machine: ProcessorState) -> ProgramState {
        ProgramState { machine, ..self }
    }

    /// The state with the status of the processor replaced.
    pub open spec fn with_status(self, status: ProcessorStatus) -> ProgramState {
        self.with_machine(self.machine.with_status(status))
    }

    /// The state with a breakpoint at `point`.
    pub open spec fn with_breakpoint(self, point: u32) -> ProgramState {
        ProgramState { breakpoints: self.breakpoints.insert(point), ..self }
    }

    /// The state without a breakpoint at `point`.
    pub open spec fn without_breakpoint(self, point: u32) -> ProgramState {
        ProgramState { breakpoints: self.breakpoints.remove(point), ..self }
    }

    /// Whether a step stops at a breakpoint before it decodes anything.
    pub open spec fn at_breakpoint(self) -> bool {
        self.do_breakpoints && self.breakpoints.contains(self.machine.next)
    }

    /// Whether a step with `reply` does nothing but ask the host.
    pub open spec fn waits(self, reply: Option<HostReply>) -> bool {
        !self.at_breakpoint() && self.machine.waits(reply)
    }

    /// The state after one step: paused and otherwise untouched at a
    /// breakpoint, else what the processor makes of it.
    pub open spec fn stepped(self, reply: Option<HostReply>) -> ProgramState {
        if self.at_breakpoint() {
            self.with_status(ProcessorStatus::Paused)
        } else {
            self.with_machine(self.machine.stepped(reply))
        }
    }

    /// What a step with `reply` tells the controller.
    pub open spec fn stop_code(self, reply: Option<HostReply>) -> StopCode {
        if self.at_breakpoint() {
            StopCode::Pause
        } else {
            self.machine.stop_code(reply)
        }
    }

    /// Whether a run goes on from this state: the machine is running, steps
    /// are left, and the next step does not wait for the host.
    pub open spec fn goes_on(self, budget: nat, reply: Option<HostReply>) -> bool {
        budget > 0 && self.machine.status == ProcessorStatus::Running && !self.waits(reply)
    }

    /// The state after a running machine has taken steps until it stops
    /// running, waits for the host, or has taken `budget` steps. `reply`
    /// answers the first instruction only.
    pub open spec fn ran(self, budget: nat, reply: Option<HostReply>) -> ProgramState
        decreases budget,
    {
        if self.goes_on(budget, reply) {
            self.stepped(reply).ran((budget - 1) as nat, None)
        } else {
            self
        }
    }

    /// The number of steps that `ran` takes.
    pub open spec fn run_length(self, budget: nat, reply: Option<HostReply>) -> nat
        decreases budget,
    {
        if self.goes_on(budget, reply) {
            1 + self.stepped(reply).run_length((budget - 1) as nat, None)
        } else {
            0
        }
    }

    /// Whether the machine can be driven further.
    pub open spec fn drivable(self) -> bool {
        self.machine.status != ProcessorStatus::Halted && self.machine.status
            != ProcessorStatus::Empty
    }

    /// The state after a continue with at most `budget` steps: nothing
    /// happens to a halted or empty machine; any other is set running and
    /// runs.
    pub open spec fn continued(self, budget: nat, reply: Option<HostReply>) -> ProgramState {
        if self.drivable() {
            self.with_status(ProcessorStatus::Running).ran(budget, reply)
        } else {
            self
        }
    }

    /// The number of steps that `continued` takes.
    pub open spec fn continue_length(self, budget: nat, reply: Option<HostReply>) -> nat {
        if self.drivable() {
            self.with_status(ProcessorStatus::Running).run_length(budget, reply)
        } else {
            0
        }
    }

    /// The state after a step-over: a paused machine takes one step; a
    /// machine that has not started takes one step and is paused whatever
    /// the step did; a step that waits for the host, and any other machine,
    /// changes nothing.
    pub open spec fn stepped_over(self, reply: Option<HostReply>) -> ProgramState {
        if self.waits(reply) {
            self
        } else if self.machine.status == ProcessorStatus::Paused {
            self.stepped(reply)
        } else if self.machine.status == ProcessorStatus::NotStarted {
            self.stepped(reply).with_status(ProcessorStatus::Paused)
        } else {
            self
        }
    }
}

/// What a run did.
#[derive(Clone, Copy, Debug, PartialEq, Eq, Structural)]
pub struct RunReport {
    /// The number of steps taken.
    pub steps_taken: u32,
    /// What the host has to answer before the run can go on, if it stopped
    /// for that.
    pub request: Option<HostRequest>,
}

/// A processor under a debugger.
pub struct Program {
    processor: Processor,
    breakpoints: HashSet<u32>,
    do_breakpoints: bool,
}

impl Program {
    /// The processor's state together with the breakpoints.
    pub closed spec fn view(&self) -> ProgramState {
        ProgramState {
            machine: self.processor@,
            breakpoints: self.breakpoints@,
            do_breakpoints: self.do_breakpoints,
        }
    }

    /// The processor is well formed.
    pub closed spec fn wf(&self) -> bool {
        self.processor.wf()
    }

    /// A program with an empty processor and no breakpoints.
    pub fn new() -> (r: Program)
        ensures
            r.wf(),
            r@ == ProgramState::fresh(),
    {
        let processor = Processor::new();
        let breakpoints: HashSet<u32> = HashSet::new();
        let do_breakpoints = false;
        Program { processor, breakpoints, do_breakpoints }
    }

    /// The processor, for inspection.
    pub fn processor(&self) -> (r: &Processor)
        ensures
            r.wf() == self.wf(),
            r@ == self@.machine,
    {
        &self.processor
    }

    /// Sets a breakpoint at `point`.
    pub fn set_breakpoint(&mut self, point: u32)
        ensures
            final(self).wf() == old(self).wf(),
            final(self)@ == old(self)@.with_breakpoint(point),
    {
        if !self.breakpoints.contains(&point) {
            self.breakpoints.insert(point);
        }
        assert(self.breakpoints@ =~= old(self).breakpoints@.insert(point));
    }

    /// Removes the breakpoint at `point`, if there is one.
    pub fn remove_breakpoint(&mut self, point: u32)
        ensures
            final(self).wf() == old(self).wf(),
            final(self)@ == old(self)@.without_breakpoint(point),
    {
        if self.breakpoints.contains(&point) {
            self.breakpoints.remove(&point);
        }
        assert(self.breakpoints@ =~= old(self).breakpoints@.remove(point));
    }

    /// Whether there is a breakpoint at `point`.
    pub fn get_is_breakpoint(&self, point: u32) -> (r: bool)
        ensures
            r == self@.breakpoints.contains(point),
    {
        self.breakpoints.contains(&point)
    }

    /// Makes steps look at the breakpoints.
    pub fn enable_breakpoints(&mut self)
        ensures
            final(self).wf() == old(self).wf(),
            final(self)@ == (ProgramState { do_breakpoints: true, ..old(self)@ }),
    {
        self.do_breakpoints = true;
    }

    /// Makes steps pass over the breakpoints.
    pub fn disable_breakpoints(&mut self)
        ensures
            final(self).wf() == old(self).wf(),
            final(self)@ == (ProgramState { do_breakpoints: false, ..old(self)@ }),
    {
        self.do_breakpoints = false;
    }

    /// The instruction pointer.
    pub fn instruction_pointer(&self) -> (r: u32)
        ensures
            r == self@.machine.next,
    {
        self.processor.instruction_pointer()
    }

    /// The lifecycle state of the processor.
    pub fn status(&self) -> (r: ProcessorStatus)
        ensures
            r == self@.machine.status,
    {
        self.processor.status()
    }

    /// Loads a program into an empty machine; see `Processor::initialize`.
    pub fn initialize(&mut self, init: &[u32]) -> (r: Result<(), InitializeError>)
        requires
            old(self).wf(),
        ensures
            final(self).wf(),
            old(self)@.machine.status != ProcessorStatus::Empty ==> r == Err::<
                (),
                InitializeError,
            >(InitializeError::NotEmpty),
            old(self)@.machine.status == ProcessorStatus::Empty && init@.len()
                > crate::memory::PAGE_SIZE ==> r == Err::<(), InitializeError>(
                InitializeError::TooLong,
            ),
            old(self)@.machine.status == ProcessorStatus::Empty && init@.len()
                <= crate::memory::PAGE_SIZE ==> r is Ok,
            r is Ok ==> final(self)@ == old(self)@.with_machine(
                old(self)@.machine.initialized(init@),
            ),
            r is Err ==> final(self)@ == old(self)@,
    {
        self.processor.initialize(init)
    }

    /// Takes one step: pauses at a breakpoint, where breakpoints are looked
    /// at and one stands at the instruction pointer; else lets the processor
    /// execute one instruction.
    pub fn step(&mut self, reply: Option<HostReply>) -> (r: StopCode)
        requires
            old(self).wf(),
        ensures
            final(self).wf(),
            final(self)@ == old(self)@.stepped(reply),
            r == old(self)@.stop_code(reply),
            r is Await <==> old(self)@.waits(reply),
    {
        proof {
            self@.machine.lemma_effect_shape(reply);
        }
        if self.do_breakpoints {
            if self.breakpoints.contains(&self.processor.instruction_pointer()) {
                self.processor.set_status(ProcessorStatus::Paused);
                return StopCode::Pause;
            }
        }
        let stop_code = self.processor.step(reply);
        match stop_code {
            StopCode::Halt => {
                self.processor.set_status(ProcessorStatus::Halted);
            },
            StopCode::Pause => {
                self.processor.set_status(ProcessorStatus::Paused);
            },
            _ => {},
        }
        stop_code
    }

    /// Continues execution: sets a machine that can be driven running and
    /// takes steps until it stops running, an instruction waits for the host,
    /// or `budget` steps are taken. `reply` answers the first instruction
    /// only. A halted or empty machine is left alone.
    ///
    /// A machine that is still running afterwards stopped for the budget or
    /// for the host; in the second case the report holds the request.
    pub fn run(&mut self, budget: u32, reply: Option<HostReply>) -> (r: RunReport)
        requires
            old(self).wf(),
        ensures
            final(self).wf(),
            final(self)@ == old(self)@.continued(budget as nat, reply),
            r.steps_taken == old(self)@.continue_length(budget as nat, reply),
            r.request == (if final(self)@.machine.status == ProcessorStatus::Running
                && r.steps_taken < budget {
                final(self)@.machine.host_request()
            } else {
                None
            }),
    {
        match self.processor.status() {
            ProcessorStatus::Halted => {
                return RunReport { steps_taken: 0, request: None };
            },
            ProcessorStatus::Empty => {
                return RunReport { steps_taken: 0, request: None };
            },
            _ => {},
        }
        let mut steps_taken: u32 = 0;
        let mut pending: Option<HostReply> = reply;
        self.processor.set_status(ProcessorStatus::Running);
        let ghost start = self@;
        while steps_taken < budget
            invariant
                self.wf(),
                steps_taken <= budget,
                old(self)@.drivable(),
                start == old(self)@.with_status(ProcessorStatus::Running),
                start.ran(budget as nat, reply) == self@.ran(
                    (budget - steps_taken) as nat,
                    pending,
                ),
                start.run_length(budget as nat, reply) == steps_taken + self@.run_length(
                    (budget - steps_taken) as nat,
                    pending,
                ),
            decreases budget - steps_taken,
        {
            match self.processor.status() {
                ProcessorStatus::Running => {},
                _ => {
                    return RunReport { steps_taken, request: None };
                },
            }
            match self.step(pending) {
                StopCode::Await(request) => {
                    return RunReport { steps_taken, request: Some(request) };
                },
                _ => {},
            }
            steps_taken = steps_taken + 1;
            pending = None;
        }
        RunReport { steps_taken, request: None }
    }

    /// Steps over one instruction: a paused machine takes one step; a machine
    /// that has not started takes one step and is paused whatever the step
    /// did; any other is left alone. Where the instruction waits for the
    /// host, nothing changes and the request is returned.
    pub fn step_over(&mut self, reply: Option<HostReply>) -> (r: Option<HostRequest>)
        requires
            old(self).wf(),
        ensures
            final(self).wf(),
            final(self)@ == old(self)@.stepped_over(reply),
            r == (if (old(self)@.machine.status == ProcessorStatus::Paused || old(
                self,
            )@.machine.status == ProcessorStatus::NotStarted) && old(self)@.waits(reply) {
                old(self)@.machine.host_request()
            } else {
                None
            }),
    {
        match self.processor.status() {
            ProcessorStatus::Paused => {
                match self.step(reply) {
                    StopCode::Await(request) => Some(request),
                    _ => None,
                }
            },
            ProcessorStatus::NotStarted => {
                match self.step(reply) {
                    StopCode::Await(request) => Some(request),
                    _ => {
                        self.processor.set_status(ProcessorStatus::Paused);
                        None
                    },
                }
            },
            _ => None,
        }
    }
}

/// Setting a breakpoint twice is setting it once.
pub proof fn lemma_set_breakpoint_idempotent(s: ProgramState, point: u32)
    ensures
        s.with_breakpoint(point).with_breakpoint(point) == s.with_breakpoint(point),
{
    assert(s.breakpoints.insert(point).insert(point) =~= s.breakpoints.insert(point));
}

/// Removing a breakpoint twice is removing it once.
pub proof fn lemma_remove_breakpoint_idempotent(s: ProgramState, point: u32)
    ensures
        s.without_breakpoint(point).without_breakpoint(point) == s.without_breakpoint(point),
{
    assert(s.breakpoints.remove(point).remove(point) =~= s.breakpoints.remove(point));
}

/// A new program that was loaded and has taken no step stands at address 1
/// and has not started.
pub proof fn lemma_loaded_program_is_ready(init: Seq<u32>, reply: Option<HostReply>)
    ensures
        ({
            let loaded = ProgramState::fresh().with_machine(
                ProgramState::fresh().machine.initialized(init),
            );
            &&& loaded.machine.next == 1
            &&& loaded.machine.status == ProcessorStatus::NotStarted
            &&& loaded.ran(0, reply) == loaded
        }),
{
}

/// A halted or empty machine stays as it is under continue and step-over.
pub proof fn lemma_halted_and_empty_are_sticky(
    s: ProgramState,
    budget: nat,
    reply: Option<HostReply>,
)
    requires
        !s.drivable(),
    ensures
        s.continued(budget, reply) == s,
        s.continue_length(budget, reply) == 0,
        s.stepped_over(reply) == s,
{
}

/// A run ends for a reason: the machine that is still running afterwards has
/// used up its budget or waits for the host. The answer that the next
/// instruction still lacks is the given one where no step was taken, and
/// none after that.
pub proof fn lemma_run_ends_for_a_reason(s: ProgramState, budget: nat, reply: Option<HostReply>)
    ensures
        s.run_length(budget, reply) <= budget,
        s.ran(budget, reply).machine.status == ProcessorStatus::Running ==> s.machine.status
            == ProcessorStatus::Running && (s.run_length(budget, reply) == budget || s.ran(
            budget,
            reply,
        ).waits(
            if s.run_length(budget, reply) == 0 {
                reply
            } else {
                None
            },
        )),
        s.ran(budget, reply).breakpoints == s.breakpoints,
        s.ran(budget, reply).do_breakpoints == s.do_breakpoints,
    decreases budget,
{
    if s.goes_on(budget, reply) {
        lemma_run_ends_for_a_reason(s.stepped(reply), (budget - 1) as nat, None);
    }
}

/// A run splits: where the first `k` steps of a run are all taken, the run
/// is those `k` steps followed by a run on what is left of the budget.
pub proof fn lemma_run_splits(s: ProgramState, k: nat, budget: nat, reply: Option<HostReply>)
    requires
        k <= budget,
        s.run_length(k, reply) == k,
    ensures
        s.ran(budget, reply) == s.ran(k, reply).ran(
            (budget - k) as nat,
            if k == 0 {
                reply
            } else {
                None
            },
        ),
    decreases k,
{
    if k > 0 {
        assert(s.goes_on(k, reply));
        assert(s.goes_on(budget, reply));
        let t = s.stepped(reply);
        lemma_run_splits(t, (k - 1) as nat, (budget - 1) as nat, None);
        if k == 1 {
            assert(t.ran(0, None) == t);
        }
    }
}

/// A running machine that stands at a breakpoint, with breakpoints looked
/// at, pauses there: nothing but the status changes.
pub proof fn lemma_run_pauses_at_breakpoint(
    s: ProgramState,
    budget: nat,
    reply: Option<HostReply>,
)
    requires
        budget > 0,
        s.machine.status == ProcessorStatus::Running,
        s.at_breakpoint(),
    ensures
        s.ran(budget, reply) == s.with_status(ProcessorStatus::Paused),
        s.run_length(budget, reply) == 1,
{
    let t = s.stepped(reply);
    assert(s.goes_on(budget, reply));
    assert(!t.goes_on((budget - 1) as nat, None));
    assert(t.ran((budget - 1) as nat, None) == t);
    assert(t.run_length((budget - 1) as nat, None) == 0);
    assert(s.ran(budget, reply) == t.ran((budget - 1) as nat, None));
    assert(s.run_length(budget, reply) == 1 + t.run_length((budget - 1) as nat, None));
}

/// A continue that comes to an address with a breakpoint, with breakpoints
/// looked at, pauses there before the instruction is executed: where the
/// machine, `k` steps into the continue, is still running and stands at a
/// breakpoint, the continue ends in that state, paused.
pub proof fn lemma_continue_pauses_at_breakpoint(
    s: ProgramState,
    k: nat,
    budget: nat,
    reply: Option<HostReply>,
)
    requires
        s.drivable(),
        k < budget,
        s.with_status(ProcessorStatus::Running).run_length(k, reply) == k,
        s.with_status(ProcessorStatus::Running).ran(k, reply).machine.status
            == ProcessorStatus::Running,
        s.with_status(ProcessorStatus::Running).ran(k, reply).at_breakpoint(),
    ensures
        s.continued(budget, reply) == s.with_status(ProcessorStatus::Running).ran(
            k,
            reply,
        ).with_status(ProcessorStatus::Paused),
        s.continued(budget, reply).machine.status == ProcessorStatus::Paused,
        s.continued(budget, reply).machine.next == s.with_status(ProcessorStatus::Running).ran(
            k,
            reply,
        ).machine.next,
{
    let start = s.with_status(ProcessorStatus::Running);
    let t = start.ran(k, reply);
    lemma_run_splits(start, k, budget, reply);
    lemma_run_pauses_at_breakpoint(
        t,
        (budget - k) as nat,
        if k == 0 {
            reply
        } else {
            None
        },
    );
}

} // verus!
