use byteorder::ByteOrder;
use byteorder::LittleEndian;
use vstd::prelude::*;

verus! {

/// The unsigned value of two bytes read little-endian.
pub open spec fn le16(b0: u8, b1: u8) -> int {
    b0 + 256 * b1
}

/// The unsigned value of four bytes read little-endian.
pub open spec fn le32(b0: u8, b1: u8, b2: u8, b3: u8) -> int {
    b0 + 256 * b1 + 65536 * b2 + 16777216 * b3
}

/// Two's-complement reading of a 16-bit unsigned value.
pub open spec fn signed16(u: int) -> int {
    if u < 0x8000 { u } else { u - 0x1_0000 }
}

/// Two's-complement reading of a 32-bit unsigned value.
pub open spec fn signed32(u: int) -> int {
    if u < 0x8000_0000 { u } else { u - 0x1_0000_0000 }
}

/// Relies on byteorder's `LittleEndian::read_i16`: the two bytes at `at`,
/// little-endian, as a two's-complement value.
#[verifier::external_body]
fn read_i16_le(buf: &Vec<u8>, at: usize) -> (r: i16)
    requires
        at + 2 <= buf@.len(),
    ensures
        r as int == signed16(le16(buf@[at as int], buf@[at + 1])),
{
    LittleEndian::read_i16(&buf[at..])
}

/// Relies on byteorder's `LittleEndian::read_i32`: the four bytes at `at`,
/// little-endian, as a two's-complement value.
#[verifier::external_body]
fn read_i32_le(buf: &Vec<u8>, at: usize) -> (r: i32)
    requires
        at + 4 <= buf@.len(),
    ensures
        r as int == signed32(le32(buf@[at as int], buf@[at + 1], buf@[at + 2], buf@[at + 3])),
{
    LittleEndian::read_i32(&buf[at..])
}

/// One decoded instruction slot.
#[derive(Clone, Copy, Debug, PartialEq, Eq)]
pub struct Instruction {
    pub opcode: u8,
    pub dst: u8,
    pub src: u8,
    pub off: i16,
    pub imm: i32,
}

/// The instruction held by slot `i` of `prog`: opcode byte, then a byte with
/// the source register in its high nibble and the destination in its low
/// nibble, then a little-endian `i16` offset and a little-endian `i32` immediate.
pub open spec fn decode_spec(prog: Seq<u8>, i: int) -> Instruction {
    let b = 8 * i;
    Instruction {
        opcode: prog[b],
        dst: prog[b + 1] % 16,
        src: prog[b + 1] / 16,
        off: signed16(le16(prog[b + 2], prog[b + 3])) as i16,
        imm: signed32(le32(prog[b + 4], prog[b + 5], prog[b + 6], prog[b + 7])) as i32,
    }
}

/// Decodes slot `i` of `prog`.
pub fn decode(prog: &Vec<u8>, i: usize) -> (r: Instruction)
    requires
        8 * i + 8 <= prog.len(),
    ensures
        r == decode_spec(prog@, i as int),
{
    let b: usize = 8 * i;
    let regs: u8 = prog[b + 1];
    let off = read_i16_le(prog, b + 2);
    let imm = read_i32_le(prog, b + 4);
    Instruction { opcode: prog[b], dst: regs % 16, src: regs / 16, off, imm }
}

} // verus!
