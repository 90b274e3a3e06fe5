use crate::fault::Fault;
use crate::machine::initial_spec;
use crate::machine::step_spec;
use crate::machine::Event;
use crate::machine::Machine;
use crate::machine::State;
use std::collections::HashMap;
use vstd::prelude::*;

verus! {

broadcast use vstd::std_specs::hash::group_hash_axioms;

/// The arguments a helper receives: registers 1 to 5.
pub open spec fn helper_args(s: State) -> (u64, u64, u64, u64, u64) {
    (s.regs[1], s.regs[2], s.regs[3], s.regs[4], s.regs[5])
}

/// `s` with register 0 set to `v`.
pub open spec fn with_result(s: State, v: u64) -> State {
    State { pc: s.pc, regs: s.regs.update(0, v), mem: s.mem, stack: s.stack }
}

/// A value that helper `h` may return on `args`.
pub open spec fn helper_result<H: Fn(u64, u64, u64, u64, u64) -> u64>(
    h: H,
    args: (u64, u64, u64, u64, u64),
) -> u64 {
    choose|r: u64| call_ensures(h, args, r)
}

/// The outcome of running `prog` from `s` for at most `fuel` steps. A call
/// to a registered helper puts the helper's result in register 0; a call to
/// an unregistered key changes nothing but the instruction pointer. When
/// the fuel runs out first, the outcome is the budget fault.
pub open spec fn run_spec<H: Fn(u64, u64, u64, u64, u64) -> u64>(
    prog: Seq<u8>,
    helpers: Map<u32, H>,
    s: State,
    fuel: nat,
) -> Result<u64, Fault>
    decreases fuel,
{
    if fuel == 0 {
        Err(Fault::BudgetExhausted)
    } else {
        let (s2, e) = step_spec(prog, s);
        match e {
            Event::Continue => run_spec(prog, helpers, s2, (fuel - 1) as nat),
            Event::Call(k) => if helpers.contains_key(k) {
                run_spec(
                    prog,
                    helpers,
                    with_result(s2, helper_result(helpers[k], helper_args(s2))),
                    (fuel - 1) as nat,
                )
            } else {
                run_spec(prog, helpers, s2, (fuel - 1) as nat)
            },
            Event::Halt(o) => o,
        }
    }
}

/// Whether every registered helper accepts any five arguments.
pub open spec fn helpers_total<H: Fn(u64, u64, u64, u64, u64) -> u64>(helpers: Map<u32, H>) -> bool {
    forall|k: u32, a: (u64, u64, u64, u64, u64)|
        helpers.contains_key(k) ==> #[trigger] call_requires(helpers[k], a)
}

/// Whether every registered helper gives one result for given arguments.
pub open spec fn helpers_deterministic<H: Fn(u64, u64, u64, u64, u64) -> u64>(
    helpers: Map<u32, H>,
) -> bool {
    forall|k: u32, a: (u64, u64, u64, u64, u64), r1: u64, r2: u64|
        helpers.contains_key(k) && #[trigger] call_ensures(helpers[k], a, r1) && #[trigger] call_ensures(
            helpers[k],
            a,
            r2,
        ) ==> r1 == r2
}

/// A program and the helpers it may call, keyed by the call's immediate.
pub struct VMContext<H> {
    pub program: Vec<u8>,
    pub helpers: HashMap<u32, H>,
}

impl<H: Fn(u64, u64, u64, u64, u64) -> u64> VMContext<H> {
    pub open spec fn wf(&self) -> bool {
        self.program@.len() % 8 == 0
    }

    /// A context for `program` with no helpers; a program whose length is not
    /// a whole number of 8-byte slots is refused.
    pub fn new(program: Vec<u8>) -> (r: Result<VMContext<H>, Fault>)
        ensures
            program@.len() % 8 == 0 <==> r is Ok,
            r matches Ok(c) ==> c.wf() && c.program@ == program@ && c.helpers@ == Map::<
                u32,
                H,
            >::empty(),
            r matches Err(f) ==> f == Fault::TruncatedProgram,
    {
        if program.len() % 8 != 0 {
            Err(Fault::TruncatedProgram)
        } else {
            Ok(VMContext { program, helpers: HashMap::new() })
        }
    }

    /// Registers `func` under `key`, returning the helper it replaces.
    pub fn register_func(&mut self, key: u32, func: H) -> (r: Option<H>)
        ensures
            final(self).program@ == old(self).program@,
            final(self).helpers@ == old(self).helpers@.insert(key, func),
            r == (if old(self).helpers@.contains_key(key) {
                Some(old(self).helpers@[key])
            } else {
                None
            }),
    {
        self.helpers.insert(key, func)
    }

    /// Runs the program over address space `memory` for at most `fuel`
    /// steps, returning register 0 at the return opcode or the fault that
    /// stopped the run. Where the helpers are deterministic the outcome is
    /// exactly that of `run_spec`.
    pub fn exec_program(&self, memory: Vec<u8>, fuel: u64) -> (r: Result<u64, Fault>)
        requires
            helpers_total(self.helpers@),
        ensures
            helpers_deterministic(self.helpers@) ==> r == run_spec(
                self.program@,
                self.helpers@,
                initial_spec(memory@),
                fuel as nat,
            ),
    {
        let ghost prog = self.program@;
        let ghost hs = self.helpers@;
        let ghost mem0 = memory@;
        let mut m = Machine::new(memory);
        let mut left: u64 = fuel;
        while left > 0
            invariant
                m.wf(),
                prog == self.program@,
                hs == self.helpers@,
                mem0 == memory@,
                helpers_total(hs),
                helpers_deterministic(hs) ==> run_spec(prog, hs, m@, left as nat) == run_spec(
                    prog,
                    hs,
                    initial_spec(mem0),
                    fuel as nat,
                ),
            decreases left,
        {
            let ghost s0 = m@;
            let e = m.step(&self.program);
            let ghost s2 = m@;
            match e {
                Event::Continue => {},
                Event::Call(k) => {
                    match self.helpers.get(&k) {
                        Some(h) => {
                            let v = h(m.regs[1], m.regs[2], m.regs[3], m.regs[4], m.regs[5]);
                            m.regs.set(0, v);
                            proof {
                                assert(hs.contains_key(k) && hs[k] == *h);
                                assert(call_ensures(hs[k], helper_args(s2), v));
                                if helpers_deterministic(hs) {
                                    let c = helper_result(hs[k], helper_args(s2));
                                    assert(call_ensures(hs[k], helper_args(s2), c));
                                    assert(c == v);
                                    assert(m@ == with_result(s2, v));
                                }
                            }
                        },
                        None => {
                            assert(!hs.contains_key(k));
                        },
                    }
                },
                Event::Halt(o) => {
                    return o;
                },
            }
            left = left - 1;
        }
        Err(Fault::BudgetExhausted)
    }
}

/// Packs five small values into one word: the first shifted up by 32 bits,
/// the next three by 24, 16 and 8 bits, and the last in place, or-ed together.
pub fn gather_bytes(arg1: u64, arg2: u64, arg3: u64, arg4: u64, arg5: u64) -> (r: u64)
    ensures
        r == (arg1 << 32u64) | (arg2 << 24u64) | (arg3 << 16u64) | (arg4 << 8u64) | arg5,
{
    (arg1 << 32u64) | (arg2 << 24u64) | (arg3 << 16u64) | (arg4 << 8u64) | arg5
}

} // verus!
