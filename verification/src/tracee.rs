//! The tracee controller: the decisions of the single-step tracing loop.
//!
//! The controller owns no process. It is driven: for each `Event` that its
//! driver reports, it answers with the `Action` that the driver is to perform
//! next, and the driver reports what came of it. One step of the trace is
//! the exchange from `Event::Pull` to `Action::Emit`.

use crate::decode::{decode, decoding, MAX_INSTR_LEN};
use crate::hints::{capture, captured, planned, tracee_hints_stage1, MemoryAccess};
use crate::pages::{with_segment, ExecutableMap, Segment};
use crate::registers::RegisterFile;
use crate::trace::{
    hint_views, MemoryHint, MemoryHintView, MemoryOp, Step, StepView, TraceError,
};
use crate::tracer::Tracer;
use vstd::prelude::*;

verus! {

/// What the controller is waiting for.
#[derive(Clone, Copy, Debug, PartialEq, Eq, Structural)]
pub enum Phase {
    /// Nothing: the next step has not been asked for.
    Idle,
    /// The tracee's registers.
    Registers,
    /// The bytes at the instruction pointer.
    Fetch,
    /// The memory of a read, before the instruction executes.
    Stage1,
    /// The single-step.
    Stepping,
    /// The pause that lets deferred stores retire.
    Settling,
    /// The memory of a write, after the instruction has executed.
    Stage2,
    /// The tracee's change of status.
    Waiting,
}

/// How the tracee changed its status after a single-step.
#[derive(Clone, Copy, Debug, PartialEq, Eq, Structural)]
pub enum TraceeStatus {
    Exited,
    Signaled,
    Stopped,
    StillAlive,
    /// Any other status, such as the stop before the tracee exits.
    Other,
}

/// What the driver reports to the controller.
#[derive(Debug)]
pub enum Event {
    /// The next step of the trace is asked for.
    Pull,
    /// The tracee's registers were read.
    Registers(RegisterFile),
    /// The memory that was asked for was read.
    Memory(Vec<u8>),
    /// The memory that was asked for could not be read.
    Fault,
    /// The tracee was told to execute one instruction.
    Stepped,
    /// The pause has passed.
    Settled,
    /// The tracee changed its status.
    Status(TraceeStatus),
}

/// What an `Event` holds, as a mathematical value.
pub enum EventView {
    Pull,
    Registers(RegisterFile),
    Memory(Seq<u8>),
    Fault,
    Stepped,
    Settled,
    Status(TraceeStatus),
}

impl View for Event {
    type V = EventView;

    open spec fn view(&self) -> EventView {
        match self {
            Event::Pull => EventView::Pull,
            Event::Registers(regs) => EventView::Registers(*regs),
            Event::Memory(bytes) => EventView::Memory(bytes@),
            Event::Fault => EventView::Fault,
            Event::Stepped => EventView::Stepped,
            Event::Settled => EventView::Settled,
            Event::Status(status) => EventView::Status(*status),
        }
    }
}

/// What the driver is to do next.
#[derive(Debug)]
pub enum Action {
    /// Read the tracee's registers and report `Event::Registers`.
    GetRegisters,
    /// Read `size` bytes of the tracee's memory at `address` and report
    /// `Event::Memory`, or `Event::Fault` where they cannot be read.
    ReadMemory { address: u64, size: u64 },
    /// Let the tracee execute one instruction and report `Event::Stepped`.
    SingleStep,
    /// Pause for a millisecond and report `Event::Settled`.
    Settle,
    /// Wait for the tracee to change its status and report `Event::Status`.
    WaitStatus,
    /// Hand the step to the consumer of the trace.
    Emit(Step),
    /// Hand the error to the consumer of the trace, after suspending and
    /// detaching the tracee where `detach` is set.
    Fail { error: TraceError, detach: bool },
    /// The trace has ended.
    Finish,
}

/// What an `Action` holds, as a mathematical value.
pub enum ActionView {
    GetRegisters,
    ReadMemory { address: u64, size: u64 },
    SingleStep,
    Settle,
    WaitStatus,
    Emit(StepView),
    Fail { error: TraceError, detach: bool },
    Finish,
}

impl View for Action {
    type V = ActionView;

    open spec fn view(&self) -> ActionView {
        match self {
            Action::GetRegisters => ActionView::GetRegisters,
            Action::ReadMemory { address, size } => ActionView::ReadMemory {
                address: *address,
                size: *size,
            },
            Action::SingleStep => ActionView::SingleStep,
            Action::Settle => ActionView::Settle,
            Action::WaitStatus => ActionView::WaitStatus,
            Action::Emit(step) => ActionView::Emit(step@),
            Action::Fail { error, detach } => ActionView::Fail { error: *error, detach: *detach },
            Action::Finish => ActionView::Finish,
        }
    }
}

/// The state of a controller, as a mathematical value.
pub struct TraceeState {
    /// Whether the tracee has terminated.
    pub terminated: bool,
    /// The process under debug control.
    pub pid: i32,
    /// The CPU mode that instructions are decoded with.
    pub bitness: u32,
    /// Whether memory uses of unsupported size are skipped.
    pub ignore_unsupported_memops: bool,
    /// Whether the tracee is detached when an operand cannot be read.
    pub debug_on_fault: bool,
    /// The most recently read registers.
    pub regs: RegisterFile,
    /// The tracee's executable segments.
    pub pages: Map<u64, Seq<u8>>,
    /// What the controller is waiting for.
    pub phase: Phase,
    /// The bytes of the instruction of the step under way.
    pub instr: Seq<u8>,
    /// The accesses that the instruction is expected to perform.
    pub plan: Seq<MemoryAccess>,
    /// The error that ends the step once the planned reads are done.
    pub failure: Option<TraceError>,
    /// The hints of the step under way.
    pub hints: Seq<MemoryHintView>,
    /// In `Phase::Stage2`, the hint whose memory is being read.
    pub cursor: nat,
}

/// The first access at or behind `from` that is a read, or the number of
/// accesses where there is none.
pub open spec fn next_read(plan: Seq<MemoryAccess>, from: nat) -> nat
    decreases plan.len() - from,
{
    if from >= plan.len() {
        plan.len()
    } else if plan[from as int].operation == MemoryOp::Read {
        from
    } else {
        next_read(plan, from + 1)
    }
}

/// The first hint at or behind `from` that is a write, or the number of
/// hints where there is none.
pub open spec fn next_write(hints: Seq<MemoryHintView>, from: nat) -> nat
    decreases hints.len() - from,
{
    if from >= hints.len() {
        hints.len()
    } else if hints[from as int].operation == MemoryOp::Write {
        from
    } else {
        next_write(hints, from + 1)
    }
}

/// The hints, with no memory read yet, of the accesses from `from` up to,
/// and not including, `to`.
pub open spec fn placeholders(plan: Seq<MemoryAccess>, from: nat, to: nat) -> Seq<MemoryHintView> {
    Seq::new((to - from) as nat, |i: int| plan[from + i].placeholder_view())
}

/// Each hint is the hint of the planned access at its place, and carries no
/// more data than a hint may.
pub open spec fn hints_follow(plan: Seq<MemoryAccess>, hints: Seq<MemoryHintView>) -> bool {
    &&& hints.len() <= plan.len()
    &&& forall|i: int|
        0 <= i < hints.len() ==> {
            &&& (#[trigger] hints[i]).address == plan[i].address
            &&& hints[i].operation == plan[i].operation
            &&& hints[i].mask == plan[i].mask
            &&& hints[i].wf()
        }
}

impl TraceeState {
    /// What holds of every state that a controller reaches.
    pub open spec fn wf(self) -> bool {
        &&& (self.bitness == 32 || self.bitness == 64)
        &&& self.instr.len() <= MAX_INSTR_LEN
        &&& hints_follow(self.plan, self.hints)
        &&& (self.phase == Phase::Stage1 ==> self.hints.len() < self.plan.len()
            && self.plan[self.hints.len() as int].operation == MemoryOp::Read)
        &&& (self.phase == Phase::Stepping || self.phase == Phase::Settling || self.phase
            == Phase::Stage2 || self.phase == Phase::Waiting ==> self.hints.len()
            == self.plan.len())
        &&& (self.phase == Phase::Stage2 ==> self.cursor < self.hints.len()
            && self.hints[self.cursor as int].operation == MemoryOp::Write)
    }

    /// This state, with nothing waited for.
    pub open spec fn idle(self) -> TraceeState {
        TraceeState { phase: Phase::Idle, ..self }
    }

    /// An event that is not waited for ends the step under way.
    pub open spec fn unexpected(self) -> (TraceeState, ActionView) {
        (self.idle(), ActionView::Fail { error: TraceError::UnexpectedEvent, detach: false })
    }

    /// The first stage of hint reconstruction goes on behind the hints so
    /// far: writes get a hint without data, until a read is met, whose
    /// memory is asked for. Behind the last access the tracee is stepped,
    /// unless the plan holds an error.
    pub open spec fn stage1_resumed(self) -> (TraceeState, ActionView) {
        let at = next_read(self.plan, self.hints.len());
        let hints = self.hints + placeholders(self.plan, self.hints.len(), at);
        if at < self.plan.len() {
            (
                TraceeState { phase: Phase::Stage1, hints, ..self },
                ActionView::ReadMemory {
                    address: self.plan[at as int].address,
                    size: self.plan[at as int].mask.width() as u64,
                },
            )
        } else if self.failure is Some {
            (
                TraceeState { phase: Phase::Idle, hints, ..self },
                ActionView::Fail { error: self.failure->Some_0, detach: false },
            )
        } else {
            (TraceeState { phase: Phase::Stepping, hints, ..self }, ActionView::SingleStep)
        }
    }

    /// The second stage of hint reconstruction goes on at the hint `from`:
    /// the memory of the next write is asked for; behind the last hint the
    /// tracee's status is waited for.
    pub open spec fn stage2_resumed(self, from: nat) -> (TraceeState, ActionView) {
        let at = next_write(self.hints, from);
        if at < self.hints.len() {
            (
                TraceeState { phase: Phase::Stage2, cursor: at, ..self },
                ActionView::ReadMemory {
                    address: self.hints[at as int].address,
                    size: self.hints[at as int].mask.width() as u64,
                },
            )
        } else {
            (TraceeState { phase: Phase::Waiting, cursor: at, ..self }, ActionView::WaitStatus)
        }
    }

    /// A new step is asked for: the registers are read, unless the tracee
    /// has terminated. A step under way is given up.
    pub open spec fn on_pull(self) -> (TraceeState, ActionView) {
        if self.terminated {
            (self.idle(), ActionView::Finish)
        } else {
            (TraceeState { phase: Phase::Registers, ..self }, ActionView::GetRegisters)
        }
    }

    /// The registers were read: they are kept as the step's snapshot, and
    /// the bytes at the instruction pointer are asked for.
    pub open spec fn on_registers(self, regs: RegisterFile) -> (TraceeState, ActionView) {
        if self.phase == Phase::Registers {
            (
                TraceeState { phase: Phase::Fetch, regs, ..self },
                ActionView::ReadMemory { address: regs.rip, size: MAX_INSTR_LEN as u64 },
            )
        } else {
            self.unexpected()
        }
    }

    /// The bytes at the instruction pointer were read: they are decoded,
    /// the instruction's accesses are planned, and the first stage begins.
    pub open spec fn on_instruction(self, bytes: Seq<u8>) -> (TraceeState, ActionView) {
        let decoded = decoding(bytes, self.bitness, self.regs.rip, self.regs);
        if decoded.invalid {
            (self.idle(), ActionView::Fail { error: TraceError::InvalidInstruction, detach: false })
        } else {
            let plan = planned(decoded.uses, decoded.mnemonic, self.ignore_unsupported_memops);
            (TraceeState {
                instr: bytes.subrange(0, decoded.length as int),
                plan: plan.0,
                failure: plan.1,
                hints: Seq::empty(),
                cursor: 0,
                ..self
            }).stage1_resumed()
        }
    }

    /// Memory was read: the instruction, the operand of a read, or the
    /// operand of a write, by what was waited for.
    pub open spec fn on_memory(self, bytes: Seq<u8>) -> (TraceeState, ActionView) {
        match self.phase {
            Phase::Fetch => self.on_instruction(bytes),
            Phase::Stage1 => {
                let access = self.plan[self.hints.len() as int];
                (TraceeState { hints: self.hints.push(access.observed_view(bytes)), ..self })
                    .stage1_resumed()
            },
            Phase::Stage2 => {
                let hint = self.hints[self.cursor as int];
                let seen = MemoryHintView { data: captured(bytes, hint.mask), ..hint };
                (TraceeState { hints: self.hints.update(self.cursor as int, seen), ..self })
                    .stage2_resumed(self.cursor + 1)
            },
            _ => self.unexpected(),
        }
    }

    /// Memory could not be read: the step fails. Where it was an operand,
    /// the tracee is detached if the controller is configured so.
    pub open spec fn on_fault(self) -> (TraceeState, ActionView) {
        match self.phase {
            Phase::Fetch => (
                self.idle(),
                ActionView::Fail {
                    error: TraceError::Fetch { address: self.regs.rip },
                    detach: false,
                },
            ),
            Phase::Stage1 => {
                let access = self.plan[self.hints.len() as int];
                (
                    self.idle(),
                    ActionView::Fail {
                        error: TraceError::Fault {
                            address: access.address,
                            size: access.mask.width() as u64,
                        },
                        detach: self.debug_on_fault,
                    },
                )
            },
            Phase::Stage2 => {
                let hint = self.hints[self.cursor as int];
                (
                    self.idle(),
                    ActionView::Fail {
                        error: TraceError::Fault {
                            address: hint.address,
                            size: hint.mask.width() as u64,
                        },
                        detach: self.debug_on_fault,
                    },
                )
            },
            _ => self.unexpected(),
        }
    }

    /// The tracee was stepped: deferred stores are given time to retire.
    pub open spec fn on_stepped(self) -> (TraceeState, ActionView) {
        if self.phase == Phase::Stepping {
            (TraceeState { phase: Phase::Settling, ..self }, ActionView::Settle)
        } else {
            self.unexpected()
        }
    }

    /// The pause has passed: the second stage begins at the first hint.
    pub open spec fn on_settled(self) -> (TraceeState, ActionView) {
        if self.phase == Phase::Settling {
            self.stage2_resumed(0)
        } else {
            self.unexpected()
        }
    }

    /// Whether a change of status ends the trace: an exit does, and so
    /// does any status that is not a signal, a stop or a tracee still alive.
    pub open spec fn ends_trace(status: TraceeStatus) -> bool {
        status == TraceeStatus::Exited || status == TraceeStatus::Other
    }

    /// The tracee changed its status: the step is complete and is emitted,
    /// whatever the status.
    pub open spec fn on_status(self, status: TraceeStatus) -> (TraceeState, ActionView) {
        if self.phase == Phase::Waiting {
            (
                TraceeState {
                    phase: Phase::Idle,
                    terminated: self.terminated || Self::ends_trace(status),
                    instr: Seq::empty(),
                    hints: Seq::empty(),
                    ..self
                },
                ActionView::Emit(StepView { instr: self.instr, regs: self.regs, hints: self.hints }),
            )
        } else {
            self.unexpected()
        }
    }

    /// The state that follows this one on `event`, and what the driver is to
    /// do next.
    pub open spec fn transition(self, event: EventView) -> (TraceeState, ActionView) {
        match event {
            EventView::Pull => self.on_pull(),
            EventView::Registers(regs) => self.on_registers(regs),
            EventView::Memory(bytes) => self.on_memory(bytes),
            EventView::Fault => self.on_fault(),
            EventView::Stepped => self.on_stepped(),
            EventView::Settled => self.on_settled(),
            EventView::Status(status) => self.on_status(status),
        }
    }
}

impl TraceeState {
    /// The state of a controller that has traced nothing yet.
    pub open spec fn initial(
        pid: i32,
        bitness: u32,
        ignore_unsupported_memops: bool,
        debug_on_fault: bool,
    ) -> TraceeState {
        TraceeState {
            terminated: false,
            pid,
            bitness,
            ignore_unsupported_memops,
            debug_on_fault,
            regs: RegisterFile::zeroed(),
            pages: Map::empty(),
            phase: Phase::Idle,
            instr: Seq::empty(),
            plan: Seq::empty(),
            failure: None,
            hints: Seq::empty(),
            cursor: 0,
        }
    }
}

/// Represents an actively traced program, in some indeterminate state.
///
/// Tracees are made by their `Tracer`, whose configuration they keep.
pub struct Tracee {
    terminated: bool,
    tracee_pid: i32,
    bitness: u32,
    ignore_unsupported_memops: bool,
    debug_on_fault: bool,
    register_file: RegisterFile,
    executable_pages: ExecutableMap,
    phase: Phase,
    instr: Vec<u8>,
    plan: Vec<MemoryAccess>,
    failure: Option<TraceError>,
    hints: Vec<MemoryHint>,
    cursor: usize,
}

impl View for Tracee {
    type V = TraceeState;

    closed spec fn view(&self) -> TraceeState {
        TraceeState {
            terminated: self.terminated,
            pid: self.tracee_pid,
            bitness: self.bitness,
            ignore_unsupported_memops: self.ignore_unsupported_memops,
            debug_on_fault: self.debug_on_fault,
            regs: self.register_file,
            pages: self.executable_pages@,
            phase: self.phase,
            instr: self.instr@,
            plan: self.plan@,
            failure: self.failure,
            hints: hint_views(self.hints@),
            cursor: self.cursor as nat,
        }
    }
}

impl Tracee {
    /// What holds of every controller.
    pub open spec fn wf(&self) -> bool {
        self@.wf()
    }

    /// Create a new `Tracee` from the given PID (presumably either spawned
    /// under trace or recently attached to) and `Tracer`.
    pub fn new(tracee_pid: i32, tracer: &Tracer) -> (tracee: Tracee)
        requires
            tracer.wf(),
        ensures
            tracee.wf(),
            tracee@ == TraceeState::initial(
                tracee_pid,
                tracer.bitness,
                tracer.ignore_unsupported_memops,
                tracer.debug_on_fault,
            ),
    {
        let tracee = Tracee {
            terminated: false,
            tracee_pid,
            bitness: tracer.bitness,
            ignore_unsupported_memops: tracer.ignore_unsupported_memops,
            debug_on_fault: tracer.debug_on_fault,
            register_file: RegisterFile::default(),
            executable_pages: ExecutableMap::new(),
            phase: Phase::Idle,
            instr: Vec::new(),
            plan: Vec::new(),
            failure: None,
            hints: Vec::new(),
            cursor: 0,
        };
        assert(tracee@.hints =~= Seq::empty());
        tracee
    }

    /// Whether the tracee has terminated.
    pub fn terminated(&self) -> (terminated: bool)
        ensures
            terminated == self@.terminated,
    {
        self.terminated
    }

    /// The process under debug control.
    pub fn pid(&self) -> (pid: i32)
        ensures
            pid == self@.pid,
    {
        self.tracee_pid
    }

    /// The most recently read registers.
    pub fn register_file(&self) -> (regs: RegisterFile)
        ensures
            regs == self@.regs,
    {
        self.register_file
    }

    /// What the controller is waiting for.
    pub fn phase(&self) -> (phase: Phase)
        ensures
            phase == self@.phase,
    {
        self.phase
    }

    /// The tracee's executable segments.
    pub fn executable_pages(&self) -> (pages: &ExecutableMap)
        ensures
            pages@ == self@.pages,
    {
        &self.executable_pages
    }

    /// The failure of a read of `size` bytes of the tracee's memory at
    /// `address`: the tracee is detached if the controller is configured so.
    pub fn tracee_data(&self, address: u64, size: u64) -> (action: Action)
        ensures
            action@ == (ActionView::Fail {
                error: TraceError::Fault { address, size },
                detach: self@.debug_on_fault,
            }),
    {
        Action::Fail { error: TraceError::Fault { address, size }, detach: self.debug_on_fault }
    }

    /// The read by which the contents of `segment` are copied, where the
    /// segment is executable; no other segment is copied.
    pub fn exec_page_request(segment: &Segment) -> (request: Option<Action>)
        requires
            segment.executable ==> segment.begin < segment.end,
        ensures
            segment.executable ==> request is Some && request->Some_0@ == (ActionView::ReadMemory {
                address: segment.begin,
                size: (segment.end - segment.begin) as u64,
            }),
            !segment.executable ==> request is None,
    {
        if segment.executable {
            Some(Action::ReadMemory { address: segment.begin, size: segment.end - segment.begin })
        } else {
            None
        }
    }

    /// Keeps `bytes` as the contents of the executable segment `segment`.
    pub fn find_exec_pages(&mut self, segment: &Segment, bytes: Vec<u8>)
        requires
            old(self).wf(),
            segment.begin < segment.end,
        ensures
            final(self).wf(),
            final(self)@ == (TraceeState {
                pages: with_segment(old(self)@.pages, segment.begin, segment.end, bytes@),
                ..old(self)@
            }),
    {
        self.executable_pages.insert(segment.begin, segment.end, bytes);
    }

    /// Ends the step under way on an event that was not waited for.
    fn unexpected(&mut self) -> (action: Action)
        requires
            old(self).wf(),
        ensures
            final(self).wf(),
            (final(self)@, action@) == old(self)@.unexpected(),
    {
        self.phase = Phase::Idle;
        Action::Fail { error: TraceError::UnexpectedEvent, detach: false }
    }

    /// Goes on with the first stage of hint reconstruction behind the hints
    /// so far.
    fn resume_stage1(&mut self) -> (action: Action)
        requires
            old(self)@.bitness == 32 || old(self)@.bitness == 64,
            old(self)@.instr.len() <= MAX_INSTR_LEN,
            hints_follow(old(self)@.plan, old(self)@.hints),
        ensures
            final(self).wf(),
            (final(self)@, action@) == old(self)@.stage1_resumed(),
    {
        let ghost start = self@;
        while self.hints.len() < self.plan.len()
            invariant
                start == old(self)@,
                self@ == (TraceeState { hints: self@.hints, ..start }),
                start.hints.len() <= self@.hints.len() <= start.plan.len(),
                self@.hints.len() == self.hints@.len(),
                self@.hints == start.hints + placeholders(
                    start.plan,
                    start.hints.len(),
                    self@.hints.len(),
                ),
                next_read(start.plan, self@.hints.len()) == next_read(
                    start.plan,
                    start.hints.len(),
                ),
                hints_follow(start.plan, self@.hints),
                start.bitness == 32 || start.bitness == 64,
                start.instr.len() <= MAX_INSTR_LEN,
            decreases start.plan.len() - self@.hints.len(),
        {
            let access: MemoryAccess = self.plan[self.hints.len()];
            match access.operation {
                MemoryOp::Read => {
                    self.phase = Phase::Stage1;
                    let action = Action::ReadMemory {
                        address: access.address,
                        size: access.mask.bytes(),
                    };
                    assert(self@ == start.stage1_resumed().0);
                    assert(action@ == start.stage1_resumed().1);
                    return action;
                },
                MemoryOp::Write => {
                    let ghost before = self@.hints;
                    let hint = access.placeholder();
                    self.hints.push(hint);
                    assert(self@.hints =~= before.push(access.placeholder_view()));
                    assert(self@.hints =~= start.hints + placeholders(
                        start.plan,
                        start.hints.len(),
                        self@.hints.len(),
                    ));
                },
            }
        }
        match self.failure {
            Some(error) => {
                self.phase = Phase::Idle;
                assert(self@ == start.stage1_resumed().0);
                Action::Fail { error, detach: false }
            },
            None => {
                self.phase = Phase::Stepping;
                assert(self@ == start.stage1_resumed().0);
                Action::SingleStep
            },
        }
    }

    /// The second stage of hint reconstruction: goes on at the hint `from`,
    /// and asks for the memory of the next write.
    fn tracee_hints_stage2(&mut self, from: usize) -> (action: Action)
        requires
            old(self).wf(),
            old(self)@.hints.len() == old(self)@.plan.len(),
            from <= old(self)@.hints.len(),
        ensures
            final(self).wf(),
            (final(self)@, action@) == old(self)@.stage2_resumed(from as nat),
    {
        let ghost start = self@;
        let mut at: usize = from;
        while at < self.hints.len()
            invariant
                start == old(self)@,
                self@ == start,
                start.wf(),
                start.hints.len() == start.plan.len(),
                self@.hints.len() == self.hints@.len(),
                from <= at <= start.hints.len(),
                next_write(start.hints, at as nat) == next_write(start.hints, from as nat),
            decreases start.hints.len() - at,
        {
            match self.hints[at].operation {
                MemoryOp::Write => {
                    let address: u64 = self.hints[at].address;
                    let size: u64 = self.hints[at].mask.bytes();
                    self.phase = Phase::Stage2;
                    self.cursor = at;
                    let action = Action::ReadMemory { address, size };
                    assert(self@ == start.stage2_resumed(from as nat).0);
                    assert(action@ == start.stage2_resumed(from as nat).1);
                    return action;
                },
                MemoryOp::Read => {
                    at += 1;
                },
            }
        }
        self.phase = Phase::Waiting;
        self.cursor = at;
        assert(self@ == start.stage2_resumed(from as nat).0);
        Action::WaitStatus
    }

    /// Keeps the registers that were read as the step's snapshot, and asks
    /// for the bytes at the instruction pointer.
    fn tracee_regs(&mut self, regs: RegisterFile) -> (action: Action)
        requires
            old(self).wf(),
            old(self)@.phase == Phase::Registers,
        ensures
            final(self).wf(),
            (final(self)@, action@) == old(self)@.on_registers(regs),
    {
        self.register_file = regs;
        self.phase = Phase::Fetch;
        Action::ReadMemory { address: regs.rip, size: MAX_INSTR_LEN as u64 }
    }

    /// Decodes the bytes that were read at the tracee's current instruction
    /// pointer, plans the instruction's accesses and begins the first stage
    /// of hint reconstruction.
    fn tracee_instr(&mut self, bytes: Vec<u8>) -> (action: Action)
        requires
            old(self).wf(),
        ensures
            final(self).wf(),
            (final(self)@, action@) == old(self)@.on_instruction(bytes@),
    {
        let decoded = decode(&bytes, self.bitness, self.register_file.rip, &self.register_file);
        if decoded.invalid {
            self.phase = Phase::Idle;
            return Action::Fail { error: TraceError::InvalidInstruction, detach: false };
        }
        let plan = tracee_hints_stage1(&decoded, self.ignore_unsupported_memops);
        let mut instr = bytes;
        instr.truncate(decoded.length);
        self.instr = instr;
        self.plan = plan.accesses;
        self.failure = plan.failure;
        self.hints = Vec::new();
        self.cursor = 0;
        assert(self@.hints =~= Seq::empty());
        self.resume_stage1()
    }

    /// Step the tracee forwards: takes what the driver reports and answers
    /// with what it is to do next. A step of the trace begins with
    /// `Event::Pull` and ends with `Action::Emit`, `Action::Fail` or
    /// `Action::Finish`.
    pub fn step(&mut self, event: Event) -> (action: Action)
        requires
            old(self).wf(),
        ensures
            final(self).wf(),
            (final(self)@, action@) == old(self)@.transition(event@),
    {
        match event {
            Event::Pull => {
                if self.terminated {
                    self.phase = Phase::Idle;
                    Action::Finish
                } else {
                    self.phase = Phase::Registers;
                    Action::GetRegisters
                }
            },
            Event::Registers(regs) => match self.phase {
                Phase::Registers => self.tracee_regs(regs),
                _ => self.unexpected(),
            },
            Event::Memory(bytes) => match self.phase {
                Phase::Fetch => self.tracee_instr(bytes),
                Phase::Stage1 => {
                    let ghost before = self@.hints;
                    let access: MemoryAccess = self.plan[self.hints.len()];
                    let hint = access.observed(&bytes);
                    self.hints.push(hint);
                    assert(self@.hints =~= before.push(access.observed_view(bytes@)));
                    self.resume_stage1()
                },
                Phase::Stage2 => {
                    let ghost before = self@.hints;
                    let at: usize = self.cursor;
                    let seen = MemoryHint {
                        address: self.hints[at].address,
                        operation: self.hints[at].operation,
                        mask: self.hints[at].mask,
                        data: capture(&bytes, self.hints[at].mask),
                    };
                    self.hints.set(at, seen);
                    assert(self@.hints =~= before.update(
                        at as int,
                        MemoryHintView { data: captured(bytes@, before[at as int].mask), ..before[at as int] },
                    ));
                    assert(at < self.hints.len());
                    self.tracee_hints_stage2(at + 1)
                },
                _ => self.unexpected(),
            },
            Event::Fault => match self.phase {
                Phase::Fetch => {
                    self.phase = Phase::Idle;
                    Action::Fail {
                        error: TraceError::Fetch { address: self.register_file.rip },
                        detach: false,
                    }
                },
                Phase::Stage1 => {
                    let access: MemoryAccess = self.plan[self.hints.len()];
                    self.phase = Phase::Idle;
                    self.tracee_data(access.address, access.mask.bytes())
                },
                Phase::Stage2 => {
                    let address: u64 = self.hints[self.cursor].address;
                    let size: u64 = self.hints[self.cursor].mask.bytes();
                    self.phase = Phase::Idle;
                    self.tracee_data(address, size)
                },
                _ => self.unexpected(),
            },
            Event::Stepped => match self.phase {
                Phase::Stepping => {
                    self.phase = Phase::Settling;
                    Action::Settle
                },
                _ => self.unexpected(),
            },
            Event::Settled => match self.phase {
                Phase::Settling => self.tracee_hints_stage2(0),
                _ => self.unexpected(),
            },
            Event::Status(status) => match self.phase {
                Phase::Waiting => {
                    let mut instr: Vec<u8> = Vec::new();
                    let mut hints: Vec<MemoryHint> = Vec::new();
                    core::mem::swap(&mut self.instr, &mut instr);
                    core::mem::swap(&mut self.hints, &mut hints);
                    match status {
                        TraceeStatus::Exited | TraceeStatus::Other => {
                            self.terminated = true;
                        },
                        _ => {},
                    }
                    self.phase = Phase::Idle;
                    assert(self@.hints =~= Seq::empty());
                    Action::Emit(Step { instr, regs: self.register_file, hints })
                },
                _ => self.unexpected(),
            },
        }
    }

    /// Asks for the next step of the trace: the end of the trace if the
    /// tracee has terminated, and what the driver is to do first if not.
    pub fn next(&mut self) -> (action: Action)
        requires
            old(self).wf(),
        ensures
            final(self).wf(),
            (final(self)@, action@) == old(self)@.on_pull(),
    {
        self.step(Event::Pull)
    }
}

/// The place of a phase in the order of a step.
pub open spec fn phase_rank(phase: Phase) -> nat {
    match phase {
        Phase::Idle => 0,
        Phase::Registers => 1,
        Phase::Fetch => 2,
        Phase::Stage1 => 3,
        Phase::Stepping => 4,
        Phase::Settling => 5,
        Phase::Stage2 => 6,
        Phase::Waiting => 7,
    }
}

/// Once the tracee has terminated it stays terminated whatever is reported,
/// and every pull yields the end of the trace.
pub proof fn lemma_terminated_is_final(state: TraceeState, event: EventView)
    requires
        state.terminated,
    ensures
        state.transition(event).0.terminated,
        state.transition(EventView::Pull) == (state.idle(), ActionView::Finish),
{
}

/// Within a step the phases follow each other in their order: the register
/// fetch, the instruction fetch, the reads of the first stage, the
/// single-step, the pause, the reads of the second stage, and the wait for
/// the status. Only a pull begins a step, and only the reads of one stage
/// follow each other in the same phase.
pub proof fn lemma_phase_order(state: TraceeState, event: EventView)
    ensures
        ({
            let next = state.transition(event).0;
            ||| next.phase == Phase::Idle
            ||| event is Pull && next.phase == Phase::Registers
            ||| phase_rank(state.phase) < phase_rank(next.phase)
            ||| state.phase == next.phase && (next.phase == Phase::Stage1 || next.phase
                == Phase::Stage2)
        }),
{
}

/// The tracee is stepped only once every planned access has its hint, and
/// its status is waited for only behind the last write.
pub proof fn lemma_stages_complete(state: TraceeState, event: EventView)
    requires
        state.wf(),
    ensures
        ({
            let (next, action) = state.transition(event);
            &&& action is SingleStep ==> next.hints.len() == next.plan.len() && next.failure is None
            &&& action is WaitStatus ==> next_write(next.hints, next.cursor) == next.hints.len()
        }),
{
    match event {
        EventView::Memory(bytes) => {
            match state.phase {
                Phase::Fetch => {
                    let decoded = decoding(bytes, state.bitness, state.regs.rip, state.regs);
                    let plan = planned(
                        decoded.uses,
                        decoded.mnemonic,
                        state.ignore_unsupported_memops,
                    );
                    lemma_next_read_bounds(plan.0, 0);
                },
                Phase::Stage1 => {
                    lemma_next_read_bounds(state.plan, state.hints.len() + 1);
                },
                Phase::Stage2 => {
                    let hint = state.hints[state.cursor as int];
                    let seen = MemoryHintView { data: captured(bytes, hint.mask), ..hint };
                    let hints = state.hints.update(state.cursor as int, seen);
                    lemma_next_write_bounds(hints, state.cursor + 1);
                },
                _ => {},
            }
        },
        EventView::Settled => {
            lemma_next_write_bounds(state.hints, 0);
        },
        _ => {},
    }
}

/// The next read behind `from` lies at or behind `from`.
proof fn lemma_next_read_bounds(plan: Seq<MemoryAccess>, from: nat)
    requires
        from <= plan.len(),
    ensures
        from <= next_read(plan, from) <= plan.len(),
    decreases plan.len() - from,
{
    if from < plan.len() && plan[from as int].operation != MemoryOp::Read {
        lemma_next_read_bounds(plan, from + 1);
    }
}

/// The next write behind `from` lies at or behind `from`, and none lies
/// behind the end.
proof fn lemma_next_write_bounds(hints: Seq<MemoryHintView>, from: nat)
    requires
        from <= hints.len(),
    ensures
        from <= next_write(hints, from) <= hints.len(),
        next_write(hints, hints.len()) == hints.len(),
        next_write(hints, next_write(hints, from)) == next_write(hints, from),
    decreases hints.len() - from,
{
    if from < hints.len() && hints[from as int].operation != MemoryOp::Write {
        lemma_next_write_bounds(hints, from + 1);
    }
}

/// The step that is emitted when the tracee's status arrives holds the
/// registers read at its beginning and one hint for each planned access, in
/// the order of the plan, each with the address, the operation and the width
/// of its access and with no more data than a hint may carry. The trace has
/// ended from then on if the tracee exited, or changed to a status unknown to
/// the controller.
pub proof fn lemma_emitted_step(state: TraceeState, status: TraceeStatus)
    requires
        state.wf(),
        state.phase == Phase::Waiting,
    ensures
        ({
            let (next, action) = state.transition(EventView::Status(status));
            &&& action is Emit
            &&& action->Emit_0.regs == state.regs
            &&& action->Emit_0.instr == state.instr
            &&& action->Emit_0.instr.len() <= MAX_INSTR_LEN
            &&& action->Emit_0.hints.len() == state.plan.len()
            &&& hints_follow(state.plan, action->Emit_0.hints)
            &&& next.phase == Phase::Idle
            &&& next.terminated == (state.terminated || status == TraceeStatus::Exited || status
                == TraceeStatus::Other)
        }),
{
}

} // verus!
