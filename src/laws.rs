use crate::alu::alu64_spec;
use crate::alu::alu32_spec;
use crate::alu::cond_spec;
use crate::fault::Fault;
use crate::insn::decode_spec;
use crate::machine::goto;
use crate::machine::halt;
use crate::machine::initial_spec;
use crate::machine::jump_spec;
use crate::machine::operand_spec;
use crate::machine::set_reg;
use crate::machine::slot_count;
use crate::machine::step_spec;
use crate::machine::Event;
use crate::machine::State;
use crate::memory::fits;
use crate::memory::le_bytes;
use crate::memory::lemma_le_round_trip;
use crate::memory::load_spec;
use crate::memory::pow256;
use crate::memory::splice;
use crate::memory::store_spec;
use crate::memory::STACK_BASE;
use crate::vm::run_spec;
use vstd::prelude::*;

verus! {

/// Whether slot `pc` of `prog` exists and names only valid registers.
pub open spec fn valid_slot(prog: Seq<u8>, pc: int) -> bool {
    0 <= pc < slot_count(prog) && decode_spec(prog, pc).dst <= 10 && decode_spec(prog, pc).src <= 10
}

/// A two-slot program whose first slot applies a 64-bit arithmetic
/// operation with an immediate to register 0 and whose second slot returns
/// yields exactly that operation's result on zero, or its fault.
pub proof fn lemma_alu64_then_return<H: Fn(u64, u64, u64, u64, u64) -> u64>(
    prog: Seq<u8>,
    helpers: Map<u32, H>,
    mem: Seq<u8>,
    fuel: nat,
)
    requires
        slot_count(prog) == 2,
        valid_slot(prog, 0),
        valid_slot(prog, 1),
        decode_spec(prog, 0).opcode % 16 == 7,
        decode_spec(prog, 0).dst == 0,
        decode_spec(prog, 1).opcode == 0x95,
        fuel >= 2,
    ensures
        ({
            let i = decode_spec(prog, 0);
            match alu64_spec(i.opcode / 16, 0, i.imm as u64) {
                Some(Ok(v)) => run_spec(prog, helpers, initial_spec(mem), fuel) == Ok::<u64, Fault>(v),
                Some(Err(f)) => run_spec(prog, helpers, initial_spec(mem), fuel) == Err::<u64, Fault>(f),
                None => run_spec(prog, helpers, initial_spec(mem), fuel) == Err::<u64, Fault>(
                    Fault::UnknownOpcode(i.opcode),
                ),
            }
        }),
{
    let s = initial_spec(mem);
    let i = decode_spec(prog, 0);
    assert(s.regs[0] == 0);
    assert(operand_spec(s, i) == i.imm as u64);
    if let Some(Ok(v)) = alu64_spec(i.opcode / 16, 0, i.imm as u64) {
        let s1 = set_reg(s, 0, v, 1);
        assert(step_spec(prog, s) == (s1, Event::Continue));
        assert(step_spec(prog, s1) == (s1, Event::Halt(Ok(v))));
        assert(run_spec(prog, helpers, s1, (fuel - 1) as nat) == Ok::<u64, Fault>(v));
    }
}

/// A jump with offset zero goes on to the next slot, as if it were not
/// there; with offset minus one it jumps to itself, and a run from it
/// always spends its whole budget.
pub proof fn lemma_jump_offsets<H: Fn(u64, u64, u64, u64, u64) -> u64>(
    prog: Seq<u8>,
    helpers: Map<u32, H>,
    s: State,
    fuel: nat,
)
    requires
        valid_slot(prog, s.pc),
        decode_spec(prog, s.pc).opcode == 0x05,
    ensures
        decode_spec(prog, s.pc).off == 0 ==> step_spec(prog, s) == (goto(s, s.pc + 1), Event::Continue),
        decode_spec(prog, s.pc).off == -1 ==> run_spec(prog, helpers, s, fuel) == Err::<u64, Fault>(
            Fault::BudgetExhausted,
        ),
    decreases fuel,
{
    if decode_spec(prog, s.pc).off == -1 && fuel > 0 {
        assert(step_spec(prog, s) == (goto(s, s.pc), Event::Continue));
        assert(goto(s, s.pc) == s);
        lemma_jump_offsets(prog, helpers, s, (fuel - 1) as nat);
    }
}

/// A conditional jump moves to the slot its offset names, counted from the
/// next slot, where its comparison holds, and to the next slot where it
/// does not.
pub proof fn lemma_conditional_jump(prog: Seq<u8>, s: State)
    requires
        valid_slot(prog, s.pc),
        decode_spec(prog, s.pc).opcode % 8 == 5,
        cond_spec(
            decode_spec(prog, s.pc).opcode / 16,
            s.regs[decode_spec(prog, s.pc).dst as int],
            operand_spec(s, decode_spec(prog, s.pc)),
        ) is Some,
    ensures
        ({
            let i = decode_spec(prog, s.pc);
            if cond_spec(i.opcode / 16, s.regs[i.dst as int], operand_spec(s, i)) == Some(true) {
                step_spec(prog, s) == jump_spec(prog, s, s.pc + 1 + i.off)
            } else {
                step_spec(prog, s) == (goto(s, s.pc + 1), Event::Continue)
            }
        }),
{
}

/// A store of `width` bytes of `v` that succeeds, followed by a load of the
/// same width at the same address, reads back `v` reduced to that width.
pub proof fn lemma_store_then_load(mem: Seq<u8>, stack: Seq<u8>, addr: int, width: nat, v: u64)
    requires
        width <= 8,
        store_spec(mem, stack, addr, width, v) is Ok,
    ensures
        ({
            let (m2, s2) = store_spec(mem, stack, addr, width, v)->Ok_0;
            load_spec(m2, s2, addr, width) == Ok::<u64, Fault>((v as nat % pow256(width)) as u64)
        }),
{
    let b = le_bytes(v as nat, width);
    lemma_le_round_trip(v as nat, width);
    if fits(addr, width as int, mem.len() as int) {
        assert(splice(mem, addr, b).subrange(addr, addr + width) =~= b);
    } else {
        let o = addr - STACK_BASE;
        assert(splice(stack, o, b).subrange(o, o + width) =~= b);
    }
}

/// An access that lies neither wholly inside the address space nor wholly
/// inside the stack faults, for loads and stores alike.
pub proof fn lemma_out_of_range_faults(mem: Seq<u8>, stack: Seq<u8>, addr: int, width: nat, v: u64)
    requires
        !fits(addr, width as int, mem.len() as int),
        !fits(addr - STACK_BASE, width as int, stack.len() as int),
    ensures
        load_spec(mem, stack, addr, width) == Err::<u64, Fault>(Fault::OutOfBounds),
        store_spec(mem, stack, addr, width, v) == Err::<(Seq<u8>, Seq<u8>), Fault>(Fault::OutOfBounds),
{
}

/// Division or remainder, of either width, by a zero operand halts with the
/// arithmetic fault and changes nothing.
pub proof fn lemma_divide_by_zero(prog: Seq<u8>, s: State)
    requires
        valid_slot(prog, s.pc),
        decode_spec(prog, s.pc).opcode % 8 == 4 || decode_spec(prog, s.pc).opcode % 8 == 7,
        decode_spec(prog, s.pc).opcode / 16 == 3 || decode_spec(prog, s.pc).opcode / 16 == 9,
        operand_spec(s, decode_spec(prog, s.pc)) == 0,
    ensures
        step_spec(prog, s) == halt(s, Fault::DivideByZero),
{
    let i = decode_spec(prog, s.pc);
    assert(alu64_spec(i.opcode / 16, s.regs[i.dst as int], 0) == Some(
        Err::<u64, Fault>(Fault::DivideByZero),
    ));
    assert(alu32_spec(i.opcode / 16, s.regs[i.dst as int], 0) == Some(
        Err::<u64, Fault>(Fault::DivideByZero),
    ));
}

/// A call whose key names no helper leaves every register as it was and
/// goes on with the next slot.
pub proof fn lemma_missing_helper<H: Fn(u64, u64, u64, u64, u64) -> u64>(
    prog: Seq<u8>,
    helpers: Map<u32, H>,
    s: State,
    fuel: nat,
)
    requires
        valid_slot(prog, s.pc),
        decode_spec(prog, s.pc).opcode == 0x85,
        !helpers.contains_key(decode_spec(prog, s.pc).imm as u32),
        fuel > 0,
    ensures
        run_spec(prog, helpers, s, fuel) == run_spec(prog, helpers, goto(s, s.pc + 1), (fuel - 1) as nat),
        goto(s, s.pc + 1).regs == s.regs,
{
}

} // verus!
