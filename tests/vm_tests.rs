use ebpfvm::alu::alu32;
use ebpfvm::alu::alu64;
use ebpfvm::fault::Fault;
use ebpfvm::fault::FaultKind;
use ebpfvm::insn::decode;
use ebpfvm::insn::Instruction;
use ebpfvm::memory::AddressSpace;
use ebpfvm::memory::STACK_BASE;
use ebpfvm::vm::gather_bytes;
use ebpfvm::vm::VMContext;

type Helper = fn(u64, u64, u64, u64, u64) -> u64;

fn slot(op: u8, dst: u8, src: u8, off: i16, imm: i32) -> Vec<u8> {
    let mut v = vec![op, (src << 4) | (dst & 0xf)];
    v.extend_from_slice(&off.to_le_bytes());
    v.extend_from_slice(&imm.to_le_bytes());
    v
}

fn program(slots: &[Vec<u8>]) -> Vec<u8> {
    slots.concat()
}

fn exit() -> Vec<u8> {
    slot(0x95, 0, 0, 0, 0)
}

fn run_with(slots: &[Vec<u8>], mem: Vec<u8>, fuel: u64) -> Result<u64, Fault> {
    let ctx: VMContext<Helper> = VMContext::new(program(slots)).unwrap();
    ctx.exec_program(mem, fuel)
}

fn run(slots: &[Vec<u8>]) -> Result<u64, Fault> {
    run_with(slots, vec![0u8; 1024], 1000)
}

#[test]
fn return_only_gives_zero() {
    assert_eq!(run(&[exit()]), Ok(0));
}

#[test]
fn add_immediate_then_return() {
    assert_eq!(run(&[slot(0x07, 0, 0, 0, 5), exit()]), Ok(5));
}

#[test]
fn add_immediate_wraps() {
    assert_eq!(run(&[slot(0x07, 0, 0, 0, 5), slot(0x07, 0, 0, 0, -1), exit()]), Ok(4));
}

fn alu64_imm(op: u8, start: i32, imm: i32) -> Result<u64, Fault> {
    run(&[slot(0xb7, 0, 0, 0, start), slot(op, 0, 0, 0, imm), exit()])
}

fn alu64_reg(op: u8, start: i32, other: i32) -> Result<u64, Fault> {
    run(&[slot(0xb7, 0, 0, 0, start), slot(0xb7, 3, 0, 0, other), slot(op, 0, 3, 0, 0), exit()])
}

#[test]
fn alu64_operators_on_immediates() {
    assert_eq!(alu64_imm(0x17, 3, 5), Ok(3u64.wrapping_sub(5)));
    assert_eq!(alu64_imm(0x27, 7, 6), Ok(42));
    assert_eq!(alu64_imm(0x37, 43, 5), Ok(8));
    assert_eq!(alu64_imm(0x47, 0b1010, 0b0101), Ok(0b1111));
    assert_eq!(alu64_imm(0x57, 0b1110, 0b0111), Ok(0b0110));
    assert_eq!(alu64_imm(0x67, 1, 40), Ok(1u64 << 40));
    assert_eq!(alu64_imm(0x77, -1, 60), Ok(0xf));
    assert_eq!(alu64_imm(0x87, 5, 0), Ok(5u64.wrapping_neg()));
    assert_eq!(alu64_imm(0x97, 43, 5), Ok(3));
    assert_eq!(alu64_imm(0xa7, 0b1100, 0b1010), Ok(0b0110));
    assert_eq!(alu64_imm(0xb7, 1, -2), Ok(u64::MAX - 1));
    assert_eq!(alu64_imm(0xc7, -16, 2), Ok((-4i64) as u64));
}

#[test]
fn alu64_operators_on_registers() {
    assert_eq!(alu64_reg(0x0f, 40, 2), Ok(42));
    assert_eq!(alu64_reg(0x1f, 40, 2), Ok(38));
    assert_eq!(alu64_reg(0x2f, -1, 2), Ok(u64::MAX - 1));
    assert_eq!(alu64_reg(0x3f, 40, 3), Ok(13));
    assert_eq!(alu64_reg(0x6f, 1, 65), Ok(2));
    assert_eq!(alu64_reg(0x9f, 40, 3), Ok(1));
    assert_eq!(alu64_reg(0xbf, 40, 3), Ok(3));
    assert_eq!(alu64_reg(0xcf, i32::MIN, 4), Ok(((i32::MIN as i64) >> 4) as u64));
}

#[test]
fn alu32_masks_the_wide_result() {
    assert_eq!(alu64_imm(0x04, -1, 1), Ok(0));
    assert_eq!(alu64_imm(0x14, 0, 1), Ok(0xffff_ffff));
    assert_eq!(alu64_imm(0x24, 0x10000, 0x10000), Ok(0));
    assert_eq!(alu64_imm(0x84, 1, 0), Ok(0xffff_ffff));
    assert_eq!(alu64_imm(0xb4, -1, -1), Ok(0xffff_ffff));
    assert_eq!(alu64_imm(0xc4, -16, 2), Ok(((-4i64) as u64) & 0xffff_ffff));
    assert_eq!(alu64_reg(0x0c, -1, 2), Ok(1));
}

#[test]
fn alu32_results_fit_in_a_word() {
    let values = [0u64, 1, 7, 0xffff_ffff, 0x1_0000_0000, u64::MAX, 1 << 63];
    for op in 0u8..13 {
        for &a in &values {
            for &b in &values {
                let wide = alu64(op, a, b);
                let narrow = alu32(op, a, b);
                match (wide, narrow) {
                    (Some(Ok(w)), Some(Ok(n))) => {
                        assert!(n <= 0xffff_ffff);
                        assert_eq!(n, w & 0xffff_ffff);
                    }
                    (Some(Err(e)), Some(Err(f))) => assert_eq!(e, f),
                    _ => panic!("forms disagree on op {}", op),
                }
            }
        }
    }
}

#[test]
fn jump_by_zero_runs_the_next_slot() {
    assert_eq!(run(&[slot(0x05, 0, 0, 0, 0), slot(0xb7, 0, 0, 0, 7), exit()]), Ok(7));
}

#[test]
fn jump_to_itself_spends_the_budget() {
    assert_eq!(run_with(&[slot(0x05, 0, 0, -1, 0), exit()], vec![0u8; 16], 100), Err(Fault::BudgetExhausted));
}

fn branch(op: u8, a: i32, b: i32, by_reg: bool) -> Result<u64, Fault> {
    let cmp = if by_reg { slot(op | 0x08, 1, 2, 2, 0) } else { slot(op, 1, 0, 2, b) };
    run(&[
        slot(0xb7, 1, 0, 0, a),
        slot(0xb7, 2, 0, 0, b),
        cmp,
        slot(0xb7, 0, 0, 0, 1),
        exit(),
        slot(0xb7, 0, 0, 0, 2),
        exit(),
    ])
}

#[test]
fn conditional_jumps_take_and_fall_through() {
    let cases: [(u8, (i32, i32), (i32, i32)); 11] = [
        (0x15, (3, 3), (3, 4)),
        (0x25, (4, 3), (3, 3)),
        (0x35, (3, 3), (2, 3)),
        (0x45, (6, 2), (4, 2)),
        (0x55, (3, 4), (3, 3)),
        (0x65, (1, -1), (-2, -1)),
        (0x75, (-1, -1), (-2, -1)),
        (0xa5, (2, 3), (3, 3)),
        (0xb5, (3, 3), (4, 3)),
        (0xc5, (-2, -1), (1, -1)),
        (0xd5, (-1, -1), (0, -1)),
    ];
    for &(op, taken, not_taken) in &cases {
        for &by_reg in &[false, true] {
            assert_eq!(branch(op, taken.0, taken.1, by_reg), Ok(2), "op {:#x} taken", op);
            assert_eq!(branch(op, not_taken.0, not_taken.1, by_reg), Ok(1), "op {:#x} not taken", op);
        }
    }
}

fn store_load(store: u8, load: u8, off: i16, value: u64) -> Result<u64, Fault> {
    run(&[
        slot(0x18, 2, 0, 0, value as u32 as i32),
        slot(0x00, 0, 0, 0, (value >> 32) as u32 as i32),
        slot(store, 1, 2, off, 0),
        slot(load, 0, 1, off, 0),
        exit(),
    ])
}

#[test]
fn store_then_load_round_trips() {
    let v: u64 = 0x1122_3344_5566_7788;
    let widths = [(0x73u8, 0x71u8, 1i16, 0xffu64), (0x6b, 0x69, 2, 0xffff), (0x63, 0x61, 4, 0xffff_ffff), (0x7b, 0x79, 8, u64::MAX)];
    for &(st, ld, w, mask) in &widths {
        assert_eq!(store_load(st, ld, 0, v), Ok(v & mask));
        assert_eq!(store_load(st, ld, 1024 - w, v), Ok(v & mask));
    }
}

#[test]
fn immediate_store_then_load() {
    let prog = [slot(0x7a, 1, 0, 8, -2), slot(0x79, 0, 1, 8, 0), exit()];
    assert_eq!(run(&prog), Ok(u64::MAX - 1));
    let prog = [slot(0x6a, 1, 0, 8, 0x12345), slot(0x79, 0, 1, 8, 0), exit()];
    assert_eq!(run(&prog), Ok(0x2345));
}

#[test]
fn out_of_range_accesses_fault() {
    let widths = [(0x73u8, 0x71u8, 1i16), (0x6b, 0x69, 2), (0x63, 0x61, 4), (0x7b, 0x79, 8)];
    for &(st, ld, w) in &widths {
        let past = 1024 - w + 1;
        assert_eq!(run(&[slot(ld, 0, 1, past, 0), exit()]), Err(Fault::OutOfBounds));
        assert_eq!(run(&[slot(st, 1, 2, past, 0), exit()]), Err(Fault::OutOfBounds));
        assert_eq!(run(&[slot(ld, 0, 1, -1, 0), exit()]), Err(Fault::OutOfBounds));
        assert_eq!(run(&[slot(st, 1, 2, -1, 0), exit()]), Err(Fault::OutOfBounds));
        assert_eq!(run(&[slot(0xb7, 3, 0, 0, -1), slot(ld, 0, 3, 0, 0), exit()]), Err(Fault::OutOfBounds));
    }
    assert_eq!(run(&[slot(0x20, 0, 0, 0, 1021), exit()]), Err(Fault::OutOfBounds));
    assert_eq!(run(&[slot(0x58, 0, 1, 0, -1), exit()]), Err(Fault::OutOfBounds));
}

#[test]
fn absolute_and_indirect_loads_read_the_address_space() {
    let mut mem = vec![0u8; 1024];
    for i in 0..8 {
        mem[i] = (i + 1) as u8;
    }
    assert_eq!(run_with(&[slot(0x30, 0, 0, 0, 2), exit()], mem.clone(), 10), Ok(3));
    assert_eq!(run_with(&[slot(0x28, 0, 0, 0, 0), exit()], mem.clone(), 10), Ok(0x0201));
    assert_eq!(run_with(&[slot(0x20, 0, 0, 0, 0), exit()], mem.clone(), 10), Ok(0x0403_0201));
    assert_eq!(run_with(&[slot(0x38, 0, 0, 0, 0), exit()], mem.clone(), 10), Ok(0x0807_0605_0403_0201));
    assert_eq!(run_with(&[slot(0x50, 0, 1, 0, 4), exit()], mem.clone(), 10), Ok(5));
    assert_eq!(run_with(&[slot(0x61, 0, 1, 4, 0), exit()], mem, 10), Ok(0x0807_0605));
}

#[test]
fn stack_is_reachable_below_register_ten() {
    let prog = [slot(0x7a, 10, 0, -8, 99), slot(0x79, 0, 10, -8, 0), exit()];
    assert_eq!(run(&prog), Ok(99));
    assert_eq!(run(&[slot(0x79, 0, 10, 0, 0), exit()]), Err(Fault::OutOfBounds));
    assert_eq!(run(&[slot(0x79, 0, 10, -136, 0), exit()]), Err(Fault::OutOfBounds));
    assert_eq!(run(&[slot(0xbf, 0, 10, 0, 0), exit()]), Ok(STACK_BASE + 128));
}

#[test]
fn division_by_zero_faults() {
    for &op in &[0x37u8, 0x97, 0x34, 0x94] {
        assert_eq!(alu64_imm(op, 7, 0), Err(Fault::DivideByZero));
    }
    for &op in &[0x3fu8, 0x9f, 0x3c, 0x9c] {
        assert_eq!(alu64_reg(op, 7, 0), Err(Fault::DivideByZero));
    }
    assert_eq!(Fault::DivideByZero.kind(), FaultKind::Arithmetic);
}

#[test]
fn missing_helper_leaves_register_zero() {
    assert_eq!(run(&[slot(0xb7, 0, 0, 0, 9), slot(0x85, 0, 0, 0, 42), exit()]), Ok(9));
}

#[test]
fn registered_helper_result_lands_in_register_zero() {
    let prog = program(&[
        slot(0xb7, 1, 0, 0, 1),
        slot(0xb7, 2, 0, 0, 2),
        slot(0xb7, 3, 0, 0, 3),
        slot(0xb7, 4, 0, 0, 4),
        slot(0xb7, 5, 0, 0, 5),
        slot(0x85, 0, 0, 0, 0),
        exit(),
    ]);
    let mut ctx: VMContext<Helper> = VMContext::new(prog).unwrap();
    assert!(ctx.register_func(0, gather_bytes).is_none());
    assert_eq!(ctx.exec_program(vec![0u8; 1024], 100), Ok(0x0102_0304_05));
}

#[test]
fn register_func_returns_the_replaced_helper() {
    fn one(_: u64, _: u64, _: u64, _: u64, _: u64) -> u64 {
        1
    }
    let mut ctx: VMContext<Helper> = VMContext::new(exit()).unwrap();
    assert!(ctx.register_func(3, one).is_none());
    let old = ctx.register_func(3, gather_bytes).unwrap();
    assert_eq!(old(0, 0, 0, 0, 0), 1);
}

#[test]
fn wide_immediate_joins_two_words() {
    assert_eq!(run(&[slot(0x18, 0, 0, 0, 1), slot(0x00, 0, 0, 0, 2), exit()]), Ok(0x0000_0002_0000_0001));
    assert_eq!(run(&[slot(0x18, 0, 0, 0, -1), slot(0x00, 0, 0, 0, 0), exit()]), Ok(0xffff_ffff));
}

#[test]
fn wide_immediate_without_second_slot_is_truncated() {
    assert_eq!(run(&[slot(0x18, 0, 0, 0, 1)]), Err(Fault::TruncatedProgram));
}

#[test]
fn program_length_must_be_whole_slots() {
    let r: Result<VMContext<Helper>, Fault> = VMContext::new(vec![0x95, 0, 0, 0, 0, 0, 0]);
    assert_eq!(r.err(), Some(Fault::TruncatedProgram));
    assert_eq!(Fault::TruncatedProgram.kind(), FaultKind::Decode);
}

#[test]
fn falling_off_the_end_is_missing_return() {
    assert_eq!(run(&[slot(0xb7, 0, 0, 0, 1)]), Err(Fault::MissingReturn));
    assert_eq!(run(&[slot(0x05, 0, 0, -5, 0), exit()]), Err(Fault::MissingReturn));
    assert_eq!(Fault::MissingReturn.kind(), FaultKind::Control);
}

#[test]
fn unknown_opcode_faults() {
    assert_eq!(run(&[slot(0xff, 0, 0, 0, 0), exit()]), Err(Fault::UnknownOpcode(0xff)));
    assert_eq!(run(&[slot(0x8f, 0, 0, 0, 0), exit()]), Err(Fault::UnknownOpcode(0x8f)));
    assert_eq!(run(&[slot(0x0d, 0, 0, 0, 0), exit()]), Err(Fault::UnknownOpcode(0x0d)));
}

#[test]
fn invalid_register_faults() {
    assert_eq!(run(&[slot(0x07, 11, 0, 0, 1), exit()]), Err(Fault::InvalidRegister));
    assert_eq!(run(&[slot(0x0f, 0, 15, 0, 0), exit()]), Err(Fault::InvalidRegister));
}

#[test]
fn byte_swaps() {
    let setup = slot(0x18, 0, 0, 0, 0x5566_7788);
    let high = slot(0x00, 0, 0, 0, 0x1122_3344);
    assert_eq!(run(&[setup.clone(), high.clone(), slot(0xdc, 0, 0, 0, 16), exit()]), Ok(0x8877));
    assert_eq!(run(&[setup.clone(), high.clone(), slot(0xdc, 0, 0, 0, 32), exit()]), Ok(0x8877_6655));
    assert_eq!(run(&[setup.clone(), high.clone(), slot(0xdc, 0, 0, 0, 64), exit()]), Ok(0x8877_6655_4433_2211));
    assert_eq!(run(&[setup.clone(), high.clone(), slot(0xd4, 0, 0, 0, 16), exit()]), Ok(0x7788));
    assert_eq!(run(&[setup.clone(), high.clone(), slot(0xd4, 0, 0, 0, 32), exit()]), Ok(0x5566_7788));
    assert_eq!(run(&[setup.clone(), high.clone(), slot(0xd4, 0, 0, 0, 64), exit()]), Ok(0x1122_3344_5566_7788));
    assert_eq!(run(&[slot(0xdc, 0, 0, 0, 24), exit()]), Err(Fault::InvalidSwapWidth));
}

#[test]
fn decode_reads_signed_little_endian_fields() {
    let prog = slot(0x61, 3, 10, -2, -70000);
    let i = decode(&prog, 0);
    assert_eq!(i, Instruction { opcode: 0x61, dst: 3, src: 10, off: -2, imm: -70000 });
    let prog = slot(0x07, 0, 0, 0x1234, 0x1234_5678);
    assert_eq!(decode(&prog, 0).off, 0x1234);
    assert_eq!(decode(&prog, 0).imm, 0x1234_5678);
}

#[test]
fn address_space_bounds() {
    let mut a = AddressSpace::new(vec![0u8; 16]);
    assert_eq!(a.store(12, 4, 0xdead_beef), Ok(()));
    assert_eq!(a.load(12, 4), Ok(0xdead_beef));
    assert_eq!(a.load(12, 2), Ok(0xbeef));
    assert_eq!(a.load(13, 4), Err(Fault::OutOfBounds));
    assert_eq!(a.store(-1, 1, 0), Err(Fault::OutOfBounds));
    assert_eq!(a.store(STACK_BASE as i128 + 120, 8, 7), Ok(()));
    assert_eq!(a.load(STACK_BASE as i128 + 120, 8), Ok(7));
    assert_eq!(a.load(STACK_BASE as i128 + 121, 8), Err(Fault::OutOfBounds));
    assert_eq!(Fault::OutOfBounds.kind(), FaultKind::Memory);
}

#[test]
fn gather_bytes_packs_its_arguments() {
    assert_eq!(gather_bytes(1, 2, 3, 4, 5), 0x0102_0304_05);
    assert_eq!(gather_bytes(0xab, 0, 0, 0, 0xcd), 0xab_0000_00cd);
}
