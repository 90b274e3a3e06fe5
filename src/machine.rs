use crate::alu::alu32;
use crate::alu::alu32_spec;
use crate::alu::alu64;
use crate::alu::alu64_spec;
use crate::alu::cond_spec;
use crate::alu::jump_taken;
use crate::alu::to_be;
use crate::alu::to_be_spec;
use crate::alu::to_le;
use crate::alu::to_le_spec;
use crate::fault::Fault;
use crate::insn::decode;
use crate::insn::decode_spec;
use crate::insn::Instruction;
use crate::memory::load_spec;
use crate::memory::store_spec;
use crate::memory::AddressSpace;
use crate::memory::STACK_BASE;
use crate::memory::STACK_SIZE;
use vstd::prelude::*;

verus! {

/// Number of registers.
pub const NUM_REGS: usize = 11;

/// The machine's state as a mathematical value.
pub struct State {
    pub pc: int,
    pub regs: Seq<u64>,
    pub mem: Seq<u8>,
    pub stack: Seq<u8>,
}

/// What one step asks of whoever drives the machine.
#[derive(Clone, Copy, Debug)]
pub enum Event {
    /// Carry on with the next step.
    Continue,
    /// Call the helper under this key with registers 1 to 5, put its result
    /// in register 0 (if there is such a helper), then carry on.
    Call(u32),
    /// The run is over, with this outcome.
    Halt(Result<u64, Fault>),
}

/// Number of instruction slots in `prog`.
pub open spec fn slot_count(prog: Seq<u8>) -> int {
    (prog.len() / 8) as int
}

/// `s` with register `r` set to `v` and the instruction pointer at `pc`.
pub open spec fn set_reg(s: State, r: int, v: u64, pc: int) -> State {
    State { pc, regs: s.regs.update(r, v), mem: s.mem, stack: s.stack }
}

/// `s` with the instruction pointer at `pc`.
pub open spec fn goto(s: State, pc: int) -> State {
    State { pc, regs: s.regs, mem: s.mem, stack: s.stack }
}

/// Stops with `f`, leaving the state as it was.
pub open spec fn halt(s: State, f: Fault) -> (State, Event) {
    (s, Event::Halt(Err(f)))
}

/// Width in bytes of a memory opcode's access: bits 3 and 4 select 4, 2,
/// 1 or 8 bytes.
pub open spec fn width_spec(op: u8) -> nat {
    let code = (op / 8) % 4;
    if code == 0 { 4 } else if code == 1 { 2 } else if code == 2 { 1 } else { 8 }
}

/// The second operand: the source register where bit 3 of the opcode is
/// set, else the immediate sign-extended to 64 bits.
pub open spec fn operand_spec(s: State, i: Instruction) -> u64 {
    if (i.opcode / 8) % 2 == 1 { s.regs[i.src as int] } else { i.imm as u64 }
}

/// A step of an arithmetic opcode (classes 4 and 7, and the byte swaps).
pub open spec fn alu_step_spec(s: State, i: Instruction) -> (State, Event) {
    let op = i.opcode;
    let d = s.regs[i.dst as int];
    let next = s.pc + 1;
    let swapped = if op == 0xd4 { to_le_spec(d, i.imm) } else { to_be_spec(d, i.imm) };
    if op == 0xd4 || op == 0xdc {
        match swapped {
            Some(v) => (set_reg(s, i.dst as int, v, next), Event::Continue),
            None => halt(s, Fault::InvalidSwapWidth),
        }
    } else {
        let r = if op % 8 == 7 {
            alu64_spec(op / 16, d, operand_spec(s, i))
        } else {
            alu32_spec(op / 16, d, operand_spec(s, i))
        };
        if op / 16 == 8 && (op / 8) % 2 == 1 {
            halt(s, Fault::UnknownOpcode(op))
        } else {
            match r {
                Some(Ok(v)) => (set_reg(s, i.dst as int, v, next), Event::Continue),
                Some(Err(f)) => halt(s, f),
                None => halt(s, Fault::UnknownOpcode(op)),
            }
        }
    }
}

/// Moves to slot `target`; control leaves the program where it lies before
/// the first slot or past the end.
pub open spec fn jump_spec(prog: Seq<u8>, s: State, target: int) -> (State, Event) {
    if 0 <= target <= slot_count(prog) {
        (goto(s, target), Event::Continue)
    } else {
        halt(s, Fault::MissingReturn)
    }
}

/// A step of a control-flow opcode (class 5): jumps relative to the next
/// slot, helper calls and return.
pub open spec fn jmp_step_spec(prog: Seq<u8>, s: State, i: Instruction) -> (State, Event) {
    let op = i.opcode;
    let next = s.pc + 1;
    if op == 0x05 {
        jump_spec(prog, s, next + i.off)
    } else if op == 0x85 {
        (goto(s, next), Event::Call(i.imm as u32))
    } else if op == 0x95 {
        (s, Event::Halt(Ok(s.regs[0])))
    } else {
        match cond_spec(op / 16, s.regs[i.dst as int], operand_spec(s, i)) {
            Some(true) => jump_spec(prog, s, next + i.off),
            Some(false) => (goto(s, next), Event::Continue),
            None => halt(s, Fault::UnknownOpcode(op)),
        }
    }
}

/// Whether `op` loads from memory: absolute (`0x20` family), indirect
/// (`0x40` family) or register plus offset (`0x61` family).
pub open spec fn is_load(op: u8) -> bool {
    (op % 8 == 0 && (op / 32 == 1 || op / 32 == 2)) || (op % 8 == 1 && op / 32 == 3)
}

/// Whether `op` stores an immediate (`0x62` family) or a register (`0x63`
/// family) at a register plus offset.
pub open spec fn is_store(op: u8) -> bool {
    (op % 8 == 2 || op % 8 == 3) && op / 32 == 3
}

/// A step of a load opcode. Absolute loads address the immediate read as
/// unsigned; indirect loads add it, unsigned, to the source register; both
/// fill register 0. The third form adds the signed offset to the source
/// register and fills the destination register.
pub open spec fn load_step_spec(s: State, i: Instruction) -> (State, Event) {
    let op = i.opcode;
    let sv = s.regs[i.src as int];
    let addr = if op % 8 == 1 {
        sv + i.off
    } else if op / 32 == 1 {
        (i.imm as u32) as int
    } else {
        sv + (i.imm as u32)
    };
    let target: int = if op % 8 == 1 { i.dst as int } else { 0 };
    match load_spec(s.mem, s.stack, addr, width_spec(op)) {
        Ok(v) => (set_reg(s, target, v, s.pc + 1), Event::Continue),
        Err(f) => halt(s, f),
    }
}

/// A step of a store opcode: the source register, or the immediate
/// sign-extended, truncated to the width and written at the destination
/// register plus the signed offset.
pub open spec fn store_step_spec(s: State, i: Instruction) -> (State, Event) {
    let op = i.opcode;
    let v = if op % 8 == 3 { s.regs[i.src as int] } else { i.imm as u64 };
    match store_spec(s.mem, s.stack, s.regs[i.dst as int] + i.off, width_spec(op), v) {
        Ok((m, st)) => (State { pc: s.pc + 1, regs: s.regs, mem: m, stack: st }, Event::Continue),
        Err(f) => halt(s, f),
    }
}

/// The wide immediate load: the low word from this slot's immediate and the
/// high word from the next slot's, both zero-extended; consumes two slots.
pub open spec fn wide_step_spec(prog: Seq<u8>, s: State, i: Instruction) -> (State, Event) {
    if s.pc + 1 >= slot_count(prog) {
        halt(s, Fault::TruncatedProgram)
    } else {
        let hi = decode_spec(prog, s.pc + 1).imm;
        let v = ((i.imm as u32) as u64) | (((hi as u32) as u64) << 32u64);
        (set_reg(s, i.dst as int, v, s.pc + 2), Event::Continue)
    }
}

/// One step of the machine on program `prog`.
pub open spec fn step_spec(prog: Seq<u8>, s: State) -> (State, Event) {
    if !(0 <= s.pc < slot_count(prog)) {
        halt(s, Fault::MissingReturn)
    } else {
        let i = decode_spec(prog, s.pc);
        let op = i.opcode;
        if i.dst > 10 || i.src > 10 {
            halt(s, Fault::InvalidRegister)
        } else if op % 8 == 4 || op % 8 == 7 {
            alu_step_spec(s, i)
        } else if op % 8 == 5 {
            jmp_step_spec(prog, s, i)
        } else if op == 0x18 {
            wide_step_spec(prog, s, i)
        } else if is_load(op) {
            load_step_spec(s, i)
        } else if is_store(op) {
            store_step_spec(s, i)
        } else {
            halt(s, Fault::UnknownOpcode(op))
        }
    }
}

/// The machine's registers, instruction pointer and memory.
pub struct Machine {
    pub pc: usize,
    pub regs: Vec<u64>,
    pub space: AddressSpace,
}

impl View for Machine {
    type V = State;

    open spec fn view(&self) -> State {
        State {
            pc: self.pc as int,
            regs: self.regs@,
            mem: self.space.mem@,
            stack: self.space.stack@,
        }
    }
}

/// The state a run starts in: register 1 at the address space's base,
/// register 10 just past the stack's top, the others zero, a zeroed stack.
pub open spec fn initial_spec(mem: Seq<u8>) -> State {
    State {
        pc: 0,
        regs: Seq::new(NUM_REGS as nat, |r: int| if r == 10 { (STACK_BASE + STACK_SIZE) as u64 } else { 0u64 }),
        mem,
        stack: Seq::new(STACK_SIZE as nat, |i: int| 0u8),
    }
}

impl Machine {
    pub open spec fn wf(&self) -> bool {
        self.regs@.len() == NUM_REGS && self.space.wf()
    }

    /// A machine about to run, over address space `mem`.
    pub fn new(mem: Vec<u8>) -> (r: Machine)
        ensures
            r.wf(),
            r@ == initial_spec(mem@),
    {
        let mut regs: Vec<u64> = Vec::new();
        while regs.len() < NUM_REGS
            invariant
                regs@.len() <= NUM_REGS,
                forall|r: int| 0 <= r < regs@.len() ==> regs@[r] == 0u64,
            decreases NUM_REGS - regs@.len(),
        {
            regs.push(0u64);
        }
        regs.set(10, STACK_BASE + STACK_SIZE as u64);
        let space = AddressSpace::new(mem);
        let m = Machine { pc: 0, regs, space };
        assert(m@.regs =~= initial_spec(mem@).regs);
        m
    }

    /// The second operand of `i`.
    fn operand(&self, i: Instruction) -> (r: u64)
        requires
            self.wf(),
            i.src <= 10,
        ensures
            r == operand_spec(self@, i),
    {
        if (i.opcode / 8) % 2 == 1 {
            self.regs[i.src as usize]
        } else {
            i.imm as u64
        }
    }

    /// Sets register `r` to `v` and moves to slot `pc`.
    fn set_reg(&mut self, r: usize, v: u64, pc: usize)
        requires
            old(self).wf(),
            r < NUM_REGS,
        ensures
            final(self).wf(),
            final(self)@ == set_reg(old(self)@, r as int, v, pc as int),
    {
        self.regs.set(r, v);
        self.pc = pc;
    }

    fn exec_alu(&mut self, i: Instruction) -> (e: Event)
        requires
            old(self).wf(),
            i.dst <= 10,
            i.src <= 10,
            old(self).pc < usize::MAX,
        ensures
            final(self).wf(),
            (final(self)@, e) == alu_step_spec(old(self)@, i),
    {
        let op = i.opcode;
        let d = self.regs[i.dst as usize];
        if op == 0xd4 || op == 0xdc {
            let swapped = if op == 0xd4 { to_le(d, i.imm) } else { to_be(d, i.imm) };
            match swapped {
                Some(v) => {
                    self.set_reg(i.dst as usize, v, self.pc + 1);
                    Event::Continue
                },
                None => Event::Halt(Err(Fault::InvalidSwapWidth)),
            }
        } else if op / 16 == 8 && (op / 8) % 2 == 1 {
            Event::Halt(Err(Fault::UnknownOpcode(op)))
        } else {
            let b = self.operand(i);
            let r = if op % 8 == 7 { alu64(op / 16, d, b) } else { alu32(op / 16, d, b) };
            match r {
                Some(Ok(v)) => {
                    self.set_reg(i.dst as usize, v, self.pc + 1);
                    Event::Continue
                },
                Some(Err(f)) => Event::Halt(Err(f)),
                None => Event::Halt(Err(Fault::UnknownOpcode(op))),
            }
        }
    }

    fn jump(&mut self, prog: &Vec<u8>, off: i16) -> (e: Event)
        requires
            old(self).wf(),
        ensures
            final(self).wf(),
            (final(self)@, e) == jump_spec(prog@, old(self)@, old(self).pc + 1 + off),
    {
        let target: i128 = self.pc as i128 + 1 + off as i128;
        if target >= 0 && target <= (prog.len() / 8) as i128 {
            self.pc = target as usize;
            Event::Continue
        } else {
            Event::Halt(Err(Fault::MissingReturn))
        }
    }

    fn exec_jmp(&mut self, prog: &Vec<u8>, i: Instruction) -> (e: Event)
        requires
            old(self).wf(),
            i.dst <= 10,
            i.src <= 10,
            old(self).pc < usize::MAX,
        ensures
            final(self).wf(),
            (final(self)@, e) == jmp_step_spec(prog@, old(self)@, i),
    {
        let op = i.opcode;
        if op == 0x05 {
            self.jump(prog, i.off)
        } else if op == 0x85 {
            self.pc = self.pc + 1;
            Event::Call(i.imm as u32)
        } else if op == 0x95 {
            Event::Halt(Ok(self.regs[0]))
        } else {
            let b = self.operand(i);
            match jump_taken(op / 16, self.regs[i.dst as usize], b) {
                Some(true) => self.jump(prog, i.off),
                Some(false) => {
                    self.pc = self.pc + 1;
                    Event::Continue
                },
                None => Event::Halt(Err(Fault::UnknownOpcode(op))),
            }
        }
    }

    fn exec_wide(&mut self, prog: &Vec<u8>, i: Instruction) -> (e: Event)
        requires
            old(self).wf(),
            i.dst <= 10,
            old(self).pc < prog.len() / 8,
        ensures
            final(self).wf(),
            (final(self)@, e) == wide_step_spec(prog@, old(self)@, i),
    {
        if self.pc + 1 >= prog.len() / 8 {
            Event::Halt(Err(Fault::TruncatedProgram))
        } else {
            let hi = decode(prog, self.pc + 1).imm;
            let v = ((i.imm as u32) as u64) | (((hi as u32) as u64) << 32u64);
            self.set_reg(i.dst as usize, v, self.pc + 2);
            Event::Continue
        }
    }

    fn exec_load(&mut self, i: Instruction) -> (e: Event)
        requires
            old(self).wf(),
            i.dst <= 10,
            i.src <= 10,
            old(self).pc < usize::MAX,
        ensures
            final(self).wf(),
            (final(self)@, e) == load_step_spec(old(self)@, i),
    {
        let op = i.opcode;
        let sv = self.regs[i.src as usize];
        let addr: i128 = if op % 8 == 1 {
            sv as i128 + i.off as i128
        } else if op / 32 == 1 {
            (i.imm as u32) as i128
        } else {
            sv as i128 + (i.imm as u32) as i128
        };
        let target: usize = if op % 8 == 1 { i.dst as usize } else { 0 };
        match self.space.load(addr, width(op)) {
            Ok(v) => {
                self.set_reg(target, v, self.pc + 1);
                Event::Continue
            },
            Err(f) => Event::Halt(Err(f)),
        }
    }

    fn exec_store(&mut self, i: Instruction) -> (e: Event)
        requires
            old(self).wf(),
            i.dst <= 10,
            i.src <= 10,
            old(self).pc < usize::MAX,
        ensures
            final(self).wf(),
            (final(self)@, e) == store_step_spec(old(self)@, i),
    {
        let op = i.opcode;
        let v = if op % 8 == 3 { self.regs[i.src as usize] } else { i.imm as u64 };
        let addr: i128 = self.regs[i.dst as usize] as i128 + i.off as i128;
        match self.space.store(addr, width(op), v) {
            Ok(()) => {
                self.pc = self.pc + 1;
                Event::Continue
            },
            Err(f) => Event::Halt(Err(f)),
        }
    }

    /// Executes one instruction of `prog`.
    pub fn step(&mut self, prog: &Vec<u8>) -> (e: Event)
        requires
            old(self).wf(),
        ensures
            final(self).wf(),
            (final(self)@, e) == step_spec(prog@, old(self)@),
    {
        if self.pc >= prog.len() / 8 {
            return Event::Halt(Err(Fault::MissingReturn));
        }
        let i = decode(prog, self.pc);
        let op = i.opcode;
        if i.dst > 10 || i.src > 10 {
            Event::Halt(Err(Fault::InvalidRegister))
        } else if op % 8 == 4 || op % 8 == 7 {
            self.exec_alu(i)
        } else if op % 8 == 5 {
            self.exec_jmp(prog, i)
        } else if op == 0x18 {
            self.exec_wide(prog, i)
        } else if (op % 8 == 0 && (op / 32 == 1 || op / 32 == 2)) || (op % 8 == 1 && op / 32 == 3) {
            self.exec_load(i)
        } else if (op % 8 == 2 || op % 8 == 3) && op / 32 == 3 {
            self.exec_store(i)
        } else {
            Event::Halt(Err(Fault::UnknownOpcode(op)))
        }
    }
}

/// Width in bytes of memory opcode `op`'s access.
pub fn width(op: u8) -> (r: usize)
    ensures
        r == width_spec(op),
        r <= 8,
{
    let code = (op / 8) % 4;
    if code == 0 {
        4
    } else if code == 1 {
        2
    } else if code == 2 {
        1
    } else {
        8
    }
}

} // verus!
