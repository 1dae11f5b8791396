//! The interpreter engine: the machine state, every instruction handler, the
//! fetch-advance-decode-dispatch step, and a bounded run loop.
//!
//! Each cycle fetches the two bytes at the program counter, composes them
//! big-endian into an instruction word, advances the program counter by 2
//! before execution (so that jump, call and return are not overwritten by the
//! generic advance), decodes the word, and dispatches to the one handler the
//! word selects.

use crate::instruction::Instruction;
use crate::instruction::decode;
use crate::instruction::spec_decode;
use vstd::prelude::*;

verus! {

/// Size of the memory image in bytes (address space 0x000-0xFFF).
pub const MEMORY_SIZE: usize = 4096;

/// Number of general-purpose registers.
pub const REGISTER_COUNT: usize = 16;

/// Capacity of the call stack: the architectural limit on nested calls.
pub const STACK_CAPACITY: usize = 16;

/// Highest program counter from which a full two-byte instruction can still
/// be fetched.
pub const MAX_FETCH_PC: usize = 4094;

/// A fatal condition terminating the run loop. None is recoverable: each
/// signals that the supplied program is malformed with respect to the
/// engine's contract.
#[derive(Clone, Copy, Debug, PartialEq, Eq, Structural)]
pub enum Fault {
    /// A CALL was dispatched while the call stack was already at capacity.
    StackOverflow,
    /// A RETURN was dispatched with no matching call on the stack.
    StackUnderflow,
    /// The decoded word matches no entry in the dispatch table; carries the
    /// offending word and the program counter at the time of fetch.
    UnimplementedInstruction { word: u16, pc: u16 },
    /// The program counter left `[0, MAX_FETCH_PC]`, so no further
    /// instruction can be fetched. The engine requires the counter in that
    /// range before every fetch; a program that drives it outside is
    /// reported here rather than read out of bounds.
    ProgramCounterOutOfRange,
}

/// What one fetch-decode-execute step did.
#[derive(Clone, Copy, Debug, PartialEq, Eq, Structural)]
pub enum StepResult {
    /// The instruction completed and execution goes on.
    Continue,
    /// The halt word was dispatched: the run loop terminates.
    Halt,
    /// A fatal fault: the run loop terminates.
    Fault(Fault),
}

/// What a bounded run did.
#[derive(Clone, Copy, Debug, PartialEq, Eq, Structural)]
pub enum RunOutcome {
    /// The halt word was dispatched within the budget.
    Halted,
    /// A fatal fault occurred within the budget.
    Faulted(Fault),
    /// The budget was spent with the machine still running.
    Running,
}

/// The mathematical machine state: what the engine's contracts speak of.
#[verifier::ext_equal]
pub struct CpuView {
    /// The sixteen 8-bit general-purpose registers; register 0xF is the
    /// carry flag.
    pub registers: Seq<u8>,
    /// The 4096-byte memory image.
    pub memory: Seq<u8>,
    /// Offset into memory of the next instruction to fetch.
    pub pc: nat,
    /// The sixteen 16-bit return-address slots.
    pub stack: Seq<u16>,
    /// Number of currently nested unreturned calls; indexes the first free
    /// stack slot.
    pub sp: nat,
}

impl CpuView {
    /// Well-formedness: the fixed sizes of the register file, memory and
    /// stack, and the stack pointer within its range.
    pub open spec fn wf(self) -> bool {
        &&& self.registers.len() == REGISTER_COUNT
        &&& self.memory.len() == MEMORY_SIZE
        &&& self.stack.len() == STACK_CAPACITY
        &&& self.sp <= STACK_CAPACITY
    }
}

/// The instruction word at the program counter, composed big-endian.
pub open spec fn spec_fetch(s: CpuView) -> u16 {
    ((s.memory[s.pc as int] as u16) << 8) | (s.memory[s.pc as int + 1] as u16)
}

/// The generic advance: the program counter moved past the fetched word.
pub open spec fn spec_advance(s: CpuView) -> CpuView {
    CpuView { pc: (s.pc + 2) as nat, ..s }
}

/// An 8-bit addition, wrapping on overflow.
pub open spec fn wrap_add(a: u8, b: u8) -> u8 {
    ((a + b) % 256) as u8
}

/// The state after writing `value` into register `index`.
pub open spec fn spec_set_reg(s: CpuView, index: u8, value: u8) -> CpuView {
    CpuView { registers: s.registers.update(index as int, value), ..s }
}

/// The state after a skip instruction: the program counter moved by an extra
/// 2 exactly when the skip condition held.
pub open spec fn spec_skip_if(s: CpuView, taken: bool) -> CpuView {
    if taken {
        CpuView { pc: (s.pc + 2) as nat, ..s }
    } else {
        s
    }
}

/// The state after a jump to `addr`.
pub open spec fn spec_jmp(s: CpuView, addr: u16) -> CpuView {
    CpuView { pc: addr as nat, ..s }
}

/// The state after a successful call: the current program counter pushed
/// into the first free stack slot, the stack deepened by one, and execution
/// moved to `addr`.
pub open spec fn spec_call(s: CpuView, addr: u16) -> CpuView {
    CpuView {
        stack: s.stack.update(s.sp as int, s.pc as u16),
        sp: (s.sp + 1) as nat,
        pc: addr as nat,
        ..s
    }
}

/// The state after a successful return: the stack shallowed by one and
/// execution moved to the popped return address.
pub open spec fn spec_ret(s: CpuView) -> CpuView {
    CpuView { sp: (s.sp - 1) as nat, pc: s.stack[s.sp - 1] as nat, ..s }
}

/// The state after ADD-REG: register `x` holds the wrapped sum of registers
/// `x` and `y`, and register 0xF records whether the 8-bit addition
/// overflowed. The flag is written last, so it wins when `x` is 0xF itself.
pub open spec fn spec_add_xy(s: CpuView, x: u8, y: u8) -> CpuView {
    let a = s.registers[x as int];
    let b = s.registers[y as int];
    let flag: u8 = if a + b > 255 {
        1
    } else {
        0
    };
    CpuView { registers: s.registers.update(x as int, wrap_add(a, b)).update(15, flag), ..s }
}

/// One fetch-advance-decode-dispatch step over the mathematical state: the
/// new state and what the step did.
pub open spec fn spec_step(s: CpuView) -> (CpuView, StepResult) {
    let word = spec_fetch(s);
    let t = spec_advance(s);
    match spec_decode(word) {
        Instruction::Halt => (t, StepResult::Halt),
        Instruction::Clear => (t, StepResult::Continue),
        Instruction::Return => if t.sp == 0 {
            (t, StepResult::Fault(Fault::StackUnderflow))
        } else {
            (spec_ret(t), StepResult::Continue)
        },
        Instruction::Jump(addr) => (spec_jmp(t, addr), StepResult::Continue),
        Instruction::Call(addr) => if t.sp >= STACK_CAPACITY {
            (t, StepResult::Fault(Fault::StackOverflow))
        } else {
            (spec_call(t, addr), StepResult::Continue)
        },
        Instruction::SkipEqImm(x, kk) => (
            spec_skip_if(t, t.registers[x as int] == kk),
            StepResult::Continue,
        ),
        Instruction::SkipNeqImm(x, kk) => (
            spec_skip_if(t, t.registers[x as int] != kk),
            StepResult::Continue,
        ),
        Instruction::SkipEqReg(x, y) => (
            spec_skip_if(t, t.registers[x as int] == t.registers[y as int]),
            StepResult::Continue,
        ),
        Instruction::LoadImm(x, kk) => (spec_set_reg(t, x, kk), StepResult::Continue),
        Instruction::AddImm(x, kk) => (
            spec_set_reg(t, x, wrap_add(t.registers[x as int], kk)),
            StepResult::Continue,
        ),
        Instruction::LoadReg(x, y) => (
            spec_set_reg(t, x, t.registers[y as int]),
            StepResult::Continue,
        ),
        Instruction::Or(x, y) => (
            spec_set_reg(t, x, t.registers[x as int] | t.registers[y as int]),
            StepResult::Continue,
        ),
        Instruction::And(x, y) => (
            spec_set_reg(t, x, t.registers[x as int] & t.registers[y as int]),
            StepResult::Continue,
        ),
        Instruction::Xor(x, y) => (
            spec_set_reg(t, x, t.registers[x as int] ^ t.registers[y as int]),
            StepResult::Continue,
        ),
        Instruction::AddReg(x, y) => (spec_add_xy(t, x, y), StepResult::Continue),
        Instruction::Unknown(word) => (
            t,
            StepResult::Fault(Fault::UnimplementedInstruction { word, pc: s.pc as u16 }),
        ),
    }
}

/// The machine after one more step, counting the fetch-range check the run
/// loop makes: a terminal state stays terminal.
pub enum RunState {
    /// Execution goes on from this state.
    Running(CpuView),
    /// The halt word was dispatched; the final state.
    Halted(CpuView),
    /// A fault terminated the run; the final state and the fault.
    Faulted(CpuView, Fault),
}

/// One step of the run loop over the mathematical state: the program counter
/// is checked to be in fetch range, then the machine steps.
pub open spec fn step_outcome(s: CpuView) -> RunState {
    if s.pc <= MAX_FETCH_PC {
        let (t, r) = spec_step(s);
        match r {
            StepResult::Continue => RunState::Running(t),
            StepResult::Halt => RunState::Halted(t),
            StepResult::Fault(f) => RunState::Faulted(t, f),
        }
    } else {
        RunState::Faulted(s, Fault::ProgramCounterOutOfRange)
    }
}

/// The machine after exactly `n` steps of the run loop, or its terminal
/// state if it halted or faulted within `n` steps.
pub open spec fn run_steps(s: CpuView, n: nat) -> RunState
    decreases n,
{
    if n == 0 {
        RunState::Running(s)
    } else {
        match run_steps(s, (n - 1) as nat) {
            RunState::Running(t) => step_outcome(t),
            RunState::Halted(t) => RunState::Halted(t),
            RunState::Faulted(t, f) => RunState::Faulted(t, f),
        }
    }
}

/// The machine state: registers, memory, program counter and call stack,
/// owned exclusively and mutated in place by every instruction handler.
pub struct CPU {
    registers: Vec<u8>,
    position_in_memory: usize,
    memory: Vec<u8>,
    stack: Vec<u16>,
    stack_pointer: usize,
}

impl View for CPU {
    type V = CpuView;

    closed spec fn view(&self) -> CpuView {
        CpuView {
            registers: self.registers@,
            memory: self.memory@,
            pc: self.position_in_memory as nat,
            stack: self.stack@,
            sp: self.stack_pointer as nat,
        }
    }
}

impl CPU {
    /// Well-formedness of the concrete machine, stated over its view.
    pub open spec fn wf(&self) -> bool {
        self@.wf()
    }

    /// Construct a machine over an already populated 4096-byte memory image:
    /// registers and stack zeroed, the program counter at the entry offset,
    /// no nested calls. The bytes are not validated to form a coherent
    /// program.
    pub fn new(memory: Vec<u8>, entry_offset: usize) -> (r: CPU)
        requires
            memory@.len() == MEMORY_SIZE,
        ensures
            r.wf(),
            r@.memory == memory@,
            r@.pc == entry_offset as nat,
            r@.sp == 0,
            forall|i: int| 0 <= i < REGISTER_COUNT ==> r@.registers[i] == 0u8,
            forall|i: int| 0 <= i < STACK_CAPACITY ==> r@.stack[i] == 0u16,
    {
        let mut registers: Vec<u8> = Vec::new();
        let mut n: usize = 0;
        while n < REGISTER_COUNT
            invariant
                registers@.len() == n,
                n <= REGISTER_COUNT,
                forall|i: int| 0 <= i < n ==> registers@[i] == 0u8,
            decreases REGISTER_COUNT - n,
        {
            registers.push(0);
            n = n + 1;
        }
        let mut stack: Vec<u16> = Vec::new();
        let mut m: usize = 0;
        while m < STACK_CAPACITY
            invariant
                stack@.len() == m,
                m <= STACK_CAPACITY,
                forall|i: int| 0 <= i < m ==> stack@[i] == 0u16,
            decreases STACK_CAPACITY - m,
        {
            stack.push(0);
            m = m + 1;
        }
        CPU { registers, position_in_memory: entry_offset, memory, stack, stack_pointer: 0 }
    }

    /// The register probe: the value of one register, readable by index.
    pub fn register(&self, index: u8) -> (r: u8)
        requires
            self.wf(),
            index < 16,
        ensures
            r == self@.registers[index as int],
    {
        self.registers[index as usize]
    }

    /// Write one register; the loader uses this to give a program its
    /// starting values.
    pub fn set_register(&mut self, index: u8, value: u8)
        requires
            old(self).wf(),
            index < 16,
        ensures
            final(self).wf(),
            final(self)@ == spec_set_reg(old(self)@, index, value),
    {
        self.registers[index as usize] = value;
    }

    /// Write one memory byte; the loader uses this to place instruction
    /// bytes or data after construction.
    pub fn write_memory(&mut self, addr: usize, value: u8)
        requires
            old(self).wf(),
            addr < MEMORY_SIZE,
        ensures
            final(self).wf(),
            final(self)@ == (CpuView { memory: old(self)@.memory.update(addr as int, value), ..old(self)@ }),
    {
        self.memory[addr] = value;
    }

    /// The current program counter.
    pub fn program_counter(&self) -> (r: usize)
        ensures
            r as nat == self@.pc,
    {
        self.position_in_memory
    }

    /// The number of currently nested unreturned calls.
    pub fn stack_depth(&self) -> (r: usize)
        ensures
            r as nat == self@.sp,
    {
        self.stack_pointer
    }

    /// Fetch: the two consecutive bytes at the program counter composed
    /// big-endian into one instruction word.
    pub fn read_opcode(&self) -> (r: u16)
        requires
            self.wf(),
            self@.pc <= MAX_FETCH_PC,
        ensures
            r == spec_fetch(self@),
            r == self@.memory[self@.pc as int] * 256 + self@.memory[self@.pc as int + 1],
    {
        let p: usize = self.position_in_memory;
        let op_byte_1: u16 = self.memory[p] as u16;
        let op_byte_2: u16 = self.memory[p + 1] as u16;
        let r: u16 = (op_byte_1 << 8) | op_byte_2;
        proof {
            assert((op_byte_1 << 8) | op_byte_2 == op_byte_1 * 256 + op_byte_2) by (bit_vector)
                requires
                    op_byte_1 < 256,
                    op_byte_2 < 256,
            ;
        }
        r
    }

    /// CALL: push the current program counter, deepen the stack, and move
    /// execution to `addr`; faults with `StackOverflow` when the stack is
    /// already at capacity, leaving the state unchanged.
    pub fn call(&mut self, addr: u16) -> (r: Result<(), Fault>)
        requires
            old(self).wf(),
            old(self)@.pc <= 0xFFFF,
        ensures
            final(self).wf(),
            old(self)@.sp < STACK_CAPACITY ==> r == Ok::<(), Fault>(()) && final(self)@
                == spec_call(old(self)@, addr),
            old(self)@.sp == STACK_CAPACITY ==> r == Err::<(), Fault>(Fault::StackOverflow)
                && final(self)@ == old(self)@,
    {
        if self.stack_pointer >= STACK_CAPACITY {
            return Err(Fault::StackOverflow);
        }
        self.stack[self.stack_pointer] = self.position_in_memory as u16;
        self.stack_pointer = self.stack_pointer + 1;
        self.position_in_memory = addr as usize;
        Ok(())
    }

    /// RETURN: pop the top of the call stack into the program counter;
    /// faults with `StackUnderflow` when no call is nested, leaving the
    /// state unchanged.
    pub fn ret(&mut self) -> (r: Result<(), Fault>)
        requires
            old(self).wf(),
        ensures
            final(self).wf(),
            old(self)@.sp > 0 ==> r == Ok::<(), Fault>(()) && final(self)@ == spec_ret(old(self)@),
            old(self)@.sp == 0 ==> r == Err::<(), Fault>(Fault::StackUnderflow) && final(self)@
                == old(self)@,
    {
        if self.stack_pointer == 0 {
            return Err(Fault::StackUnderflow);
        }
        self.stack_pointer = self.stack_pointer - 1;
        let addr: u16 = self.stack[self.stack_pointer];
        self.position_in_memory = addr as usize;
        Ok(())
    }

    /// JUMP: set the program counter to `addr`.
    pub fn jmp(&mut self, addr: u16)
        requires
            old(self).wf(),
        ensures
            final(self).wf(),
            final(self)@ == spec_jmp(old(self)@, addr),
    {
        self.position_in_memory = addr as usize;
    }

    /// LOAD: set register `vx` to `kk`.
    pub fn ld(&mut self, vx: u8, kk: u8)
        requires
            old(self).wf(),
            vx < 16,
        ensures
            final(self).wf(),
            final(self)@ == spec_set_reg(old(self)@, vx, kk),
    {
        self.registers[vx as usize] = kk;
    }

    /// SKIP-EQ: advance the program counter by an extra 2 exactly when
    /// register `vx` equals `kk`.
    pub fn se(&mut self, vx: u8, kk: u8)
        requires
            old(self).wf(),
            vx < 16,
            old(self)@.pc + 2 <= usize::MAX,
        ensures
            final(self).wf(),
            final(self)@ == spec_skip_if(old(self)@, old(self)@.registers[vx as int] == kk),
    {
        if self.registers[vx as usize] == kk {
            self.position_in_memory = self.position_in_memory + 2;
        }
    }

    /// SKIP-NEQ: advance the program counter by an extra 2 exactly when
    /// register `vx` differs from `kk`.
    pub fn sne(&mut self, vx: u8, kk: u8)
        requires
            old(self).wf(),
            vx < 16,
            old(self)@.pc + 2 <= usize::MAX,
        ensures
            final(self).wf(),
            final(self)@ == spec_skip_if(old(self)@, old(self)@.registers[vx as int] != kk),
    {
        if self.registers[vx as usize] != kk {
            self.position_in_memory = self.position_in_memory + 2;
        }
    }

    /// ADD-IMM: add `kk` into register `vx`, wrapping on overflow, without
    /// touching the carry flag register.
    pub fn add(&mut self, vx: u8, kk: u8)
        requires
            old(self).wf(),
            vx < 16,
        ensures
            final(self).wf(),
            final(self)@ == spec_set_reg(
                old(self)@,
                vx,
                wrap_add(old(self)@.registers[vx as int], kk),
            ),
    {
        let a: u8 = self.registers[vx as usize];
        let sum: u16 = a as u16 + kk as u16;
        self.registers[vx as usize] = (sum % 256) as u8;
    }

    /// OR: bitwise or of register `y` into register `x`.
    pub fn or_xy(&mut self, x: u8, y: u8)
        requires
            old(self).wf(),
            x < 16,
            y < 16,
        ensures
            final(self).wf(),
            final(self)@ == spec_set_reg(
                old(self)@,
                x,
                old(self)@.registers[x as int] | old(self)@.registers[y as int],
            ),
    {
        let x_: u8 = self.registers[x as usize];
        let y_: u8 = self.registers[y as usize];
        self.registers[x as usize] = x_ | y_;
    }

    /// AND: bitwise and of register `y` into register `x`.
    pub fn and_xy(&mut self, x: u8, y: u8)
        requires
            old(self).wf(),
            x < 16,
            y < 16,
        ensures
            final(self).wf(),
            final(self)@ == spec_set_reg(
                old(self)@,
                x,
                old(self)@.registers[x as int] & old(self)@.registers[y as int],
            ),
    {
        let x_: u8 = self.registers[x as usize];
        let y_: u8 = self.registers[y as usize];
        self.registers[x as usize] = x_ & y_;
    }

    /// XOR: bitwise xor of register `y` into register `x`.
    pub fn xor_xy(&mut self, x: u8, y: u8)
        requires
            old(self).wf(),
            x < 16,
            y < 16,
        ensures
            final(self).wf(),
            final(self)@ == spec_set_reg(
                old(self)@,
                x,
                old(self)@.registers[x as int] ^ old(self)@.registers[y as int],
            ),
    {
        let x_: u8 = self.registers[x as usize];
        let y_: u8 = self.registers[y as usize];
        self.registers[x as usize] = x_ ^ y_;
    }

    /// ADD-REG: add register `y` into register `x`, wrapping on 8-bit
    /// overflow; register 0xF is then set to 1 if the addition overflowed
    /// and to 0 otherwise. Overflow here is defined behaviour, never a
    /// fault.
    pub fn add_xy(&mut self, x: u8, y: u8)
        requires
            old(self).wf(),
            x < 16,
            y < 16,
        ensures
            final(self).wf(),
            final(self)@ == spec_add_xy(old(self)@, x, y),
    {
        let arg_1: u8 = self.registers[x as usize];
        let arg_2: u8 = self.registers[y as usize];
        let sum: u16 = arg_1 as u16 + arg_2 as u16;
        self.registers[x as usize] = (sum % 256) as u8;
        if sum > 255 {
            self.registers[15] = 1;
        } else {
            self.registers[15] = 0;
        }
    }

    /// One cycle: fetch the word at the program counter, advance the counter
    /// past it, decode, and dispatch to the one handler the word selects.
    pub fn step(&mut self) -> (r: StepResult)
        requires
            old(self).wf(),
            old(self)@.pc <= MAX_FETCH_PC,
        ensures
            final(self).wf(),
            final(self)@ == spec_step(old(self)@).0,
            r == spec_step(old(self)@).1,
    {
        let opcode: u16 = self.read_opcode();
        let pc_at_fetch: usize = self.position_in_memory;
        self.position_in_memory = self.position_in_memory + 2;
        proof {
            assert(self@ =~= spec_advance(old(self)@));
        }
        let instr = decode(opcode);
        match instr {
            Instruction::Halt => StepResult::Halt,
            Instruction::Clear => StepResult::Continue,
            Instruction::Return => match self.ret() {
                Ok(()) => StepResult::Continue,
                Err(f) => StepResult::Fault(f),
            },
            Instruction::Jump(addr) => {
                self.jmp(addr);
                StepResult::Continue
            },
            Instruction::Call(addr) => match self.call(addr) {
                Ok(()) => StepResult::Continue,
                Err(f) => StepResult::Fault(f),
            },
            Instruction::SkipEqImm(x, kk) => {
                self.se(x, kk);
                StepResult::Continue
            },
            Instruction::SkipNeqImm(x, kk) => {
                self.sne(x, kk);
                StepResult::Continue
            },
            Instruction::SkipEqReg(x, y) => {
                let vy: u8 = self.registers[y as usize];
                self.se(x, vy);
                StepResult::Continue
            },
            Instruction::LoadImm(x, kk) => {
                self.ld(x, kk);
                StepResult::Continue
            },
            Instruction::AddImm(x, kk) => {
                self.add(x, kk);
                StepResult::Continue
            },
            Instruction::LoadReg(x, y) => {
                let vy: u8 = self.registers[y as usize];
                self.ld(x, vy);
                StepResult::Continue
            },
            Instruction::Or(x, y) => {
                self.or_xy(x, y);
                StepResult::Continue
            },
            Instruction::And(x, y) => {
                self.and_xy(x, y);
                StepResult::Continue
            },
            Instruction::Xor(x, y) => {
                self.xor_xy(x, y);
                StepResult::Continue
            },
            Instruction::AddReg(x, y) => {
                self.add_xy(x, y);
                StepResult::Continue
            },
            Instruction::Unknown(word) => StepResult::Fault(
                Fault::UnimplementedInstruction { word, pc: pc_at_fetch as u16 },
            ),
        }
    }

    /// The run loop: step repeatedly until the halt word is dispatched, a
    /// fault occurs, or `max_steps` steps have been taken. The engine itself
    /// has no instruction budget — an infinite jump loop runs as long as it
    /// is driven — so a caller that wants an unbounded run calls again
    /// whenever `Running` comes back.
    #[verifier::loop_isolation(false)]
    pub fn run(&mut self, max_steps: usize) -> (r: RunOutcome)
        requires
            old(self).wf(),
        ensures
            final(self).wf(),
            r == RunOutcome::Halted ==> exists|n: nat|
                n <= max_steps && run_steps(old(self)@, n) == RunState::Halted(final(self)@),
            r matches RunOutcome::Faulted(f) ==> exists|n: nat|
                n <= max_steps && run_steps(old(self)@, n) == RunState::Faulted(final(self)@, f),
            r == RunOutcome::Running ==> run_steps(old(self)@, max_steps as nat)
                == RunState::Running(final(self)@),
    {
        let ghost s0 = self@;
        let mut remaining: usize = max_steps;
        let ghost mut steps: nat = 0;
        loop
            invariant
                self.wf(),
                remaining <= max_steps,
                steps + remaining == max_steps,
                run_steps(s0, steps) == RunState::Running(self@),
            decreases remaining,
        {
            if remaining == 0 {
                return RunOutcome::Running;
            }
            if self.position_in_memory > MAX_FETCH_PC {
                proof {
                    assert(run_steps(s0, steps + 1) == RunState::Faulted(
                        self@,
                        Fault::ProgramCounterOutOfRange,
                    ));
                }
                return RunOutcome::Faulted(Fault::ProgramCounterOutOfRange);
            }
            let ghost pre = self@;
            let res = self.step();
            proof {
                assert(run_steps(s0, steps + 1) == step_outcome(pre));
                steps = steps + 1;
            }
            remaining = remaining - 1;
            match res {
                StepResult::Continue => {},
                StepResult::Halt => {
                    return RunOutcome::Halted;
                },
                StepResult::Fault(f) => {
                    return RunOutcome::Faulted(f);
                },
            }
        }
    }
}

/// The program counter after one dispatch: every instruction outside the
/// control-flow set leaves it at its pre-fetch value plus 2 (the generic
/// advance, and nothing else); JUMP and a successful CALL leave it exactly at
/// the 12-bit target, and a successful RETURN exactly at the popped return
/// address — never at the advanced value as well.
pub proof fn lemma_pc_after_dispatch(s: CpuView)
    requires
        s.wf(),
    ensures
        spec_decode(spec_fetch(s)) matches Instruction::Halt ==> spec_step(s).0.pc == s.pc + 2,
        spec_decode(spec_fetch(s)) matches Instruction::Clear ==> spec_step(s).0.pc == s.pc + 2,
        spec_decode(spec_fetch(s)) matches Instruction::LoadImm(x, kk) ==> spec_step(s).0.pc
            == s.pc + 2,
        spec_decode(spec_fetch(s)) matches Instruction::AddImm(x, kk) ==> spec_step(s).0.pc
            == s.pc + 2,
        spec_decode(spec_fetch(s)) matches Instruction::LoadReg(x, y) ==> spec_step(s).0.pc
            == s.pc + 2,
        spec_decode(spec_fetch(s)) matches Instruction::Or(x, y) ==> spec_step(s).0.pc == s.pc + 2,
        spec_decode(spec_fetch(s)) matches Instruction::And(x, y) ==> spec_step(s).0.pc == s.pc
            + 2,
        spec_decode(spec_fetch(s)) matches Instruction::Xor(x, y) ==> spec_step(s).0.pc == s.pc
            + 2,
        spec_decode(spec_fetch(s)) matches Instruction::AddReg(x, y) ==> spec_step(s).0.pc == s.pc
            + 2,
        spec_decode(spec_fetch(s)) matches Instruction::Unknown(w) ==> spec_step(s).0.pc == s.pc
            + 2,
        spec_decode(spec_fetch(s)) matches Instruction::Jump(a) ==> spec_step(s).0.pc == a as nat,
        spec_decode(spec_fetch(s)) matches Instruction::Call(a) ==> (s.sp < STACK_CAPACITY
            ==> spec_step(s).0.pc == a as nat),
        spec_decode(spec_fetch(s)) matches Instruction::Return ==> (s.sp > 0 ==> spec_step(s).0.pc
            == s.stack[s.sp - 1] as nat),
{
}

/// The call/return round trip: a CALL to address `a` followed by the RETURN
/// fetched there restores the program counter to the instruction immediately
/// after the CALL, and the stack pointer to its pre-CALL value; registers and
/// memory come through untouched.
pub proof fn lemma_call_return_round_trip(s: CpuView, a: u16)
    requires
        s.wf(),
        s.pc <= MAX_FETCH_PC,
        s.sp < STACK_CAPACITY,
        spec_decode(spec_fetch(s)) == Instruction::Call(a),
        spec_decode(spec_fetch(spec_step(s).0)) == Instruction::Return,
    ensures
        spec_step(s).1 == StepResult::Continue,
        spec_step(spec_step(s).0).1 == StepResult::Continue,
        spec_step(spec_step(s).0).0.pc == s.pc + 2,
        spec_step(spec_step(s).0).0.sp == s.sp,
        spec_step(spec_step(s).0).0.registers == s.registers,
        spec_step(spec_step(s).0).0.memory == s.memory,
{
}

/// The stack bounds: a CALL dispatched with the stack already at capacity
/// faults with `StackOverflow`, one below capacity succeeds and deepens the
/// stack by exactly one; a RETURN dispatched with no nested call faults with
/// `StackUnderflow`, one with a nested call succeeds and shallows the stack
/// by exactly one.
pub proof fn lemma_stack_bounds(s: CpuView)
    requires
        s.wf(),
    ensures
        spec_decode(spec_fetch(s)) matches Instruction::Call(a) ==> (s.sp == STACK_CAPACITY
            ==> spec_step(s).1 == StepResult::Fault(Fault::StackOverflow)),
        spec_decode(spec_fetch(s)) matches Instruction::Call(a) ==> (s.sp < STACK_CAPACITY
            ==> spec_step(s).1 == StepResult::Continue && spec_step(s).0.sp == s.sp + 1),
        spec_decode(spec_fetch(s)) matches Instruction::Return ==> (s.sp == 0 ==> spec_step(s).1
            == StepResult::Fault(Fault::StackUnderflow)),
        spec_decode(spec_fetch(s)) matches Instruction::Return ==> (s.sp > 0 ==> spec_step(s).1
            == StepResult::Continue && spec_step(s).0.sp == s.sp - 1),
{
}

/// SKIP-EQ-IMM advances the program counter by the extra 2 exactly when the
/// register equals the immediate, and SKIP-NEQ-IMM exactly when it does not:
/// on the same state, the one takes its skip precisely where the other
/// declines it.
pub proof fn lemma_skip_complement(s: CpuView, x: u8, kk: u8)
    requires
        s.wf(),
        x < 16,
    ensures
        spec_decode(spec_fetch(s)) == Instruction::SkipEqImm(x, kk) ==> (spec_step(s).0.pc == s.pc
            + 4 <==> s.registers[x as int] == kk) && (spec_step(s).0.pc == s.pc + 2
            <==> s.registers[x as int] != kk),
        spec_decode(spec_fetch(s)) == Instruction::SkipNeqImm(x, kk) ==> (spec_step(s).0.pc == s.pc
            + 4 <==> s.registers[x as int] != kk) && (spec_step(s).0.pc == s.pc + 2
            <==> s.registers[x as int] == kk),
{
}

} // verus!
