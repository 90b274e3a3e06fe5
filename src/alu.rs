use crate::fault::Fault;
use vstd::prelude::*;

verus! {

/// The result of arithmetic operation `op` (the opcode's high nibble) on a
/// 64-bit destination `a` and operand `b`. Add, subtract, multiply and negate
/// wrap; shifts take the amount modulo 64; division and remainder are unsigned
/// and fault on a zero divisor. `None` where `op` names no operation.
pub open spec fn alu64_spec(op: u8, a: u64, b: u64) -> Option<Result<u64, Fault>> {
    if op == 0x0 {
        Some(Ok(a.wrapping_add(b)))
    } else if op == 0x1 {
        Some(Ok(a.wrapping_sub(b)))
    } else if op == 0x2 {
        Some(Ok(a.wrapping_mul(b)))
    } else if op == 0x3 {
        Some(if b == 0 { Err(Fault::DivideByZero) } else { Ok(a / b) })
    } else if op == 0x4 {
        Some(Ok(a | b))
    } else if op == 0x5 {
        Some(Ok(a & b))
    } else if op == 0x6 {
        Some(Ok(a.wrapping_shl(b as u32)))
    } else if op == 0x7 {
        Some(Ok(a.wrapping_shr(b as u32)))
    } else if op == 0x8 {
        Some(Ok(0u64.wrapping_sub(a)))
    } else if op == 0x9 {
        Some(if b == 0 { Err(Fault::DivideByZero) } else { Ok(a % b) })
    } else if op == 0xa {
        Some(Ok(a ^ b))
    } else if op == 0xb {
        Some(Ok(b))
    } else if op == 0xc {
        Some(Ok((a as i64).wrapping_shr(b as u32) as u64))
    } else {
        None
    }
}

/// The 32-bit form of an operation: the 64-bit result masked to its low word.
pub open spec fn alu32_spec(op: u8, a: u64, b: u64) -> Option<Result<u64, Fault>> {
    match alu64_spec(op, a, b) {
        Some(Ok(v)) => Some(Ok(v & 0xffff_ffff)),
        other => other,
    }
}

/// Computes arithmetic operation `op` on the full 64-bit width.
pub fn alu64(op: u8, a: u64, b: u64) -> (r: Option<Result<u64, Fault>>)
    ensures
        r == alu64_spec(op, a, b),
{
    if op == 0x0 {
        Some(Ok(a.wrapping_add(b)))
    } else if op == 0x1 {
        Some(Ok(a.wrapping_sub(b)))
    } else if op == 0x2 {
        Some(Ok(a.wrapping_mul(b)))
    } else if op == 0x3 {
        if b == 0 { Some(Err(Fault::DivideByZero)) } else { Some(Ok(a / b)) }
    } else if op == 0x4 {
        Some(Ok(a | b))
    } else if op == 0x5 {
        Some(Ok(a & b))
    } else if op == 0x6 {
        Some(Ok(a.wrapping_shl(b as u32)))
    } else if op == 0x7 {
        Some(Ok(a.wrapping_shr(b as u32)))
    } else if op == 0x8 {
        Some(Ok(0u64.wrapping_sub(a)))
    } else if op == 0x9 {
        if b == 0 { Some(Err(Fault::DivideByZero)) } else { Some(Ok(a % b)) }
    } else if op == 0xa {
        Some(Ok(a ^ b))
    } else if op == 0xb {
        Some(Ok(b))
    } else if op == 0xc {
        Some(Ok((a as i64).wrapping_shr(b as u32) as u64))
    } else {
        None
    }
}

/// Computes arithmetic operation `op` and keeps the low 32 bits.
pub fn alu32(op: u8, a: u64, b: u64) -> (r: Option<Result<u64, Fault>>)
    ensures
        r == alu32_spec(op, a, b),
{
    match alu64(op, a, b) {
        Some(Ok(v)) => Some(Ok(v & 0xffff_ffff)),
        other => other,
    }
}

/// Every 32-bit operation yields a value that fits in 32 bits and equals the
/// 64-bit result masked to its low word; where the 64-bit form faults, so
/// does the 32-bit form.
pub proof fn lemma_alu32_masks(op: u8, a: u64, b: u64)
    ensures
        alu32_spec(op, a, b) matches Some(Ok(v)) ==> v <= 0xffff_ffff,
        alu64_spec(op, a, b) matches Some(Ok(w)) ==> alu32_spec(op, a, b) == Some(
            Ok::<u64, Fault>(w & 0xffff_ffff),
        ),
        alu64_spec(op, a, b) matches Some(Err(e)) ==> alu32_spec(op, a, b) == Some(
            Err::<u64, Fault>(e),
        ),
{
    if let Some(Ok(w)) = alu64_spec(op, a, b) {
        assert(w & 0xffff_ffff <= 0xffff_ffff) by (bit_vector);
    }
}

/// The jump condition `cond` (the opcode's high nibble) on `a` and `b`:
/// equal, unsigned and signed orderings, not-equal, and bitwise-and nonzero.
/// `None` where `cond` names no comparison.
pub open spec fn cond_spec(cond: u8, a: u64, b: u64) -> Option<bool> {
    if cond == 0x1 {
        Some(a == b)
    } else if cond == 0x2 {
        Some(a > b)
    } else if cond == 0x3 {
        Some(a >= b)
    } else if cond == 0x4 {
        Some(a & b != 0)
    } else if cond == 0x5 {
        Some(a != b)
    } else if cond == 0x6 {
        Some(a as i64 > b as i64)
    } else if cond == 0x7 {
        Some(a as i64 >= b as i64)
    } else if cond == 0xa {
        Some(a < b)
    } else if cond == 0xb {
        Some(a <= b)
    } else if cond == 0xc {
        Some((a as i64) < b as i64)
    } else if cond == 0xd {
        Some(a as i64 <= b as i64)
    } else {
        None
    }
}

/// Evaluates jump condition `cond`: whether the branch is taken.
pub fn jump_taken(cond: u8, a: u64, b: u64) -> (r: Option<bool>)
    ensures
        r == cond_spec(cond, a, b),
{
    if cond == 0x1 {
        Some(a == b)
    } else if cond == 0x2 {
        Some(a > b)
    } else if cond == 0x3 {
        Some(a >= b)
    } else if cond == 0x4 {
        Some(a & b != 0)
    } else if cond == 0x5 {
        Some(a != b)
    } else if cond == 0x6 {
        Some(a as i64 > b as i64)
    } else if cond == 0x7 {
        Some(a as i64 >= b as i64)
    } else if cond == 0xa {
        Some(a < b)
    } else if cond == 0xb {
        Some(a <= b)
    } else if cond == 0xc {
        Some((a as i64) < b as i64)
    } else if cond == 0xd {
        Some(a as i64 <= b as i64)
    } else {
        None
    }
}

/// The low `width` bits of `x` with their bytes in reverse order, for a
/// width of 16, 32 or 64; `None` for any other width.
pub open spec fn to_be_spec(x: u64, width: i32) -> Option<u64> {
    if width == 16 {
        Some(((x & 0xff) << 8u64) | ((x >> 8u64) & 0xff))
    } else if width == 32 {
        Some(((x & 0xff) << 24u64) | (((x >> 8u64) & 0xff) << 16u64) | (((x >> 16u64) & 0xff) << 8u64)
            | ((x >> 24u64) & 0xff))
    } else if width == 64 {
        Some(((x & 0xff) << 56u64) | (((x >> 8u64) & 0xff) << 48u64) | (((x >> 16u64) & 0xff) << 40u64)
            | (((x >> 24u64) & 0xff) << 32u64) | (((x >> 32u64) & 0xff) << 24u64) | (((x >> 40u64)
            & 0xff) << 16u64) | (((x >> 48u64) & 0xff) << 8u64) | ((x >> 56u64) & 0xff))
    } else {
        None
    }
}

/// The low `width` bits of `x`, already in the machine's little-endian byte
/// order, for a width of 16, 32 or 64; `None` for any other width.
pub open spec fn to_le_spec(x: u64, width: i32) -> Option<u64> {
    if width == 16 {
        Some(x & 0xffff)
    } else if width == 32 {
        Some(x & 0xffff_ffff)
    } else if width == 64 {
        Some(x)
    } else {
        None
    }
}

/// Converts the low `width` bits of `x` to big-endian byte order.
pub fn to_be(x: u64, width: i32) -> (r: Option<u64>)
    ensures
        r == to_be_spec(x, width),
{
    if width == 16 {
        Some(((x & 0xff) << 8u64) | ((x >> 8u64) & 0xff))
    } else if width == 32 {
        Some(((x & 0xff) << 24u64) | (((x >> 8u64) & 0xff) << 16u64) | (((x >> 16u64) & 0xff) << 8u64)
            | ((x >> 24u64) & 0xff))
    } else if width == 64 {
        Some(((x & 0xff) << 56u64) | (((x >> 8u64) & 0xff) << 48u64) | (((x >> 16u64) & 0xff) << 40u64)
            | (((x >> 24u64) & 0xff) << 32u64) | (((x >> 32u64) & 0xff) << 24u64) | (((x >> 40u64)
            & 0xff) << 16u64) | (((x >> 48u64) & 0xff) << 8u64) | ((x >> 56u64) & 0xff))
    } else {
        None
    }
}

/// Converts the low `width` bits of `x` to little-endian byte order.
pub fn to_le(x: u64, width: i32) -> (r: Option<u64>)
    ensures
        r == to_le_spec(x, width),
{
    if width == 16 {
        Some(x & 0xffff)
    } else if width == 32 {
        Some(x & 0xffff_ffff)
    } else if width == 64 {
        Some(x)
    } else {
        None
    }
}

} // verus!
