use crate::fault::Fault;
use vstd::arithmetic::div_mod::lemma_div_denominator;
use vstd::arithmetic::div_mod::lemma_mod_breakdown;
use vstd::prelude::*;

verus! {

/// Size in bytes of the stack region.
pub const STACK_SIZE: usize = 128;

/// Address of the first byte of the stack region. The address space starts
/// at address zero; the stack lies above every address a 32-bit immediate
/// can name.
pub const STACK_BASE: u64 = 0x1_0000_0000;

/// `256` to the power `n`.
pub open spec fn pow256(n: nat) -> nat
    decreases n,
{
    if n == 0 { 1 } else { pow256((n - 1) as nat) * 256 }
}

/// The unsigned value of `s` read as a little-endian number.
pub open spec fn le_value(s: Seq<u8>) -> nat
    decreases s.len(),
{
    if s.len() == 0 { 0 } else { s[0] as nat + 256 * le_value(s.drop_first()) }
}

/// The low `w` bytes of `v`, least significant first.
pub open spec fn le_bytes(v: nat, w: nat) -> Seq<u8> {
    Seq::new(w, |i: int| ((v / pow256(i as nat)) % 256) as u8)
}

/// `s` with the bytes from `at` on replaced by `b`.
pub open spec fn splice(s: Seq<u8>, at: int, b: Seq<u8>) -> Seq<u8> {
    s.subrange(0, at) + b + s.subrange(at + b.len(), s.len() as int)
}

/// Whether a `width`-byte access at `addr` lies inside a buffer of `len` bytes.
pub open spec fn fits(addr: int, width: int, len: int) -> bool {
    0 <= addr && addr + width <= len
}

/// The value of the `width` bytes at address `addr`, zero-extended; an
/// out-of-bounds fault where they do not lie wholly inside the address space
/// or wholly inside the stack.
pub open spec fn load_spec(mem: Seq<u8>, stack: Seq<u8>, addr: int, width: nat) -> Result<u64, Fault> {
    if fits(addr, width as int, mem.len() as int) {
        Ok(le_value(mem.subrange(addr, addr + width)) as u64)
    } else if fits(addr - STACK_BASE, width as int, stack.len() as int) {
        let o = addr - STACK_BASE;
        Ok(le_value(stack.subrange(o, o + width)) as u64)
    } else {
        Err(Fault::OutOfBounds)
    }
}

/// The address space and stack after the low `width` bytes of `v` are
/// written at address `addr`; an out-of-bounds fault on the same terms as
/// a load.
pub open spec fn store_spec(mem: Seq<u8>, stack: Seq<u8>, addr: int, width: nat, v: u64) -> Result<
    (Seq<u8>, Seq<u8>),
    Fault,
> {
    if fits(addr, width as int, mem.len() as int) {
        Ok((splice(mem, addr, le_bytes(v as nat, width)), stack))
    } else if fits(addr - STACK_BASE, width as int, stack.len() as int) {
        Ok((mem, splice(stack, addr - STACK_BASE, le_bytes(v as nat, width))))
    } else {
        Err(Fault::OutOfBounds)
    }
}

pub proof fn lemma_pow256_mono(a: nat, b: nat)
    requires
        a <= b,
    ensures
        1 <= pow256(a) <= pow256(b),
    decreases b,
{
    if b > 0 {
        lemma_pow256_mono(if a < b { a } else { (b - 1) as nat }, (b - 1) as nat);
    }
}

/// A little-endian number of `s.len()` bytes is below `256` to that power.
pub proof fn lemma_le_value_bound(s: Seq<u8>)
    ensures
        le_value(s) < pow256(s.len()),
    decreases s.len(),
{
    if s.len() > 0 {
        lemma_le_value_bound(s.drop_first());
    }
}

/// Reading back the bytes written for `v` gives `v` reduced to their width.
pub proof fn lemma_le_round_trip(v: nat, w: nat)
    ensures
        le_value(le_bytes(v, w)) == v % pow256(w),
    decreases w,
{
    if w == 0 {
        assert(le_bytes(v, w).len() == 0);
        assert(v % 1 == 0);
    } else {
        let p = pow256((w - 1) as nat);
        assert(v / 1 == v);
        assert(le_bytes(v, w)[0] == v % 256);
        lemma_pow256_mono(0, (w - 1) as nat);
        assert forall|i: int| 0 <= i < w - 1 implies #[trigger] le_bytes(v, w).drop_first()[i]
            == le_bytes(v / 256, (w - 1) as nat)[i] by {
            lemma_pow256_mono(0, i as nat);
            lemma_div_denominator(v as int, 256, pow256(i as nat) as int);
            assert(pow256((i + 1) as nat) == pow256(i as nat) * 256);
        }
        assert(le_bytes(v, w).drop_first() =~= le_bytes(v / 256, (w - 1) as nat));
        lemma_le_round_trip(v / 256, (w - 1) as nat);
        lemma_mod_breakdown(v as int, 256, p as int);
        assert(pow256(w) == 256 * p);
    }
}

/// Reads `width` bytes at `at` as a little-endian number.
fn read_le(buf: &Vec<u8>, at: usize, width: usize) -> (r: u64)
    requires
        at + width <= buf.len(),
        width <= 8,
    ensures
        r as nat == le_value(buf@.subrange(at as int, at + width)),
{
    let mut acc: u64 = 0;
    let mut i: usize = width;
    assert(buf@.subrange(at + width, at + width) =~= Seq::<u8>::empty());
    assert(pow256(8) == 0x1_0000_0000_0000_0000) by {
        reveal_with_fuel(pow256, 9);
    }
    while i > 0
        invariant
            at + width <= buf.len(),
            width <= 8,
            i <= width,
            acc as nat == le_value(buf@.subrange(at + i, at + width)),
            acc < pow256((width - i) as nat),
            pow256(8) == 0x1_0000_0000_0000_0000,
        decreases i,
    {
        i -= 1;
        proof {
            lemma_pow256_mono((width - i) as nat, 8);
            assert(pow256((width - i) as nat) == pow256((width - i - 1) as nat) * 256);
        }
        acc = acc * 256 + buf[at + i] as u64;
        assert(buf@.subrange(at + i, at + width).drop_first() =~= buf@.subrange(
            at + i + 1,
            at + width,
        ));
    }
    acc
}

/// Writes the low `width` bytes of `v` at `at`, least significant first.
fn write_le(buf: &mut Vec<u8>, at: usize, width: usize, v: u64)
    requires
        at + width <= old(buf).len(),
    ensures
        final(buf)@ == splice(old(buf)@, at as int, le_bytes(v as nat, width as nat)),
{
    let mut i: usize = 0;
    let mut t: u64 = v;
    assert(pow256(0) == 1);
    assert(v as nat / 1 == v as nat);
    while i < width
        invariant
            at + width <= buf.len(),
            i <= width,
            buf@.len() == old(buf)@.len(),
            t as nat == v as nat / pow256(i as nat),
            forall|j: int| 0 <= j < buf@.len() && !(at <= j < at + i) ==> buf@[j] == old(buf)@[j],
            forall|j: int| 0 <= j < i ==> buf@[at + j] == le_bytes(v as nat, width as nat)[j],
        decreases width - i,
    {
        buf.set(at + i, (t % 256) as u8);
        proof {
            lemma_pow256_mono(0, i as nat);
            lemma_div_denominator(v as int, pow256(i as nat) as int, 256);
        }
        t = t / 256;
        i += 1;
    }
    assert(final(buf)@ =~= splice(old(buf)@, at as int, le_bytes(v as nat, width as nat)));
}

/// The machine's memory: the host-supplied address space, starting at
/// address zero, and the stack, at `STACK_BASE`.
pub struct AddressSpace {
    pub mem: Vec<u8>,
    pub stack: Vec<u8>,
}

/// Addresses that a base register plus a 32-bit displacement can form.
pub open spec fn address_in_range(addr: int) -> bool {
    -0x8000_0000_0000_0000 <= addr <= 0x2_0000_0000_0000_0000
}

impl AddressSpace {
    pub open spec fn wf(&self) -> bool {
        self.stack@.len() == STACK_SIZE
    }

    /// An address space over `mem`, with a zeroed stack.
    pub fn new(mem: Vec<u8>) -> (r: AddressSpace)
        ensures
            r.wf(),
            r.mem@ == mem@,
            r.stack@ == Seq::new(STACK_SIZE as nat, |i: int| 0u8),
    {
        let mut stack: Vec<u8> = Vec::new();
        while stack.len() < STACK_SIZE
            invariant
                stack@.len() <= STACK_SIZE,
                forall|i: int| 0 <= i < stack@.len() ==> stack@[i] == 0u8,
            decreases STACK_SIZE - stack@.len(),
        {
            stack.push(0u8);
        }
        assert(stack@ =~= Seq::new(STACK_SIZE as nat, |i: int| 0u8));
        AddressSpace { mem, stack }
    }

    /// Reads `width` bytes at `addr`, zero-extended.
    pub fn load(&self, addr: i128, width: usize) -> (r: Result<u64, Fault>)
        requires
            self.wf(),
            width <= 8,
            address_in_range(addr as int),
        ensures
            r == load_spec(self.mem@, self.stack@, addr as int, width as nat),
    {
        let w = width as i128;
        if addr >= 0 && addr + w <= self.mem.len() as i128 {
            let v = read_le(&self.mem, addr as usize, width);
            proof {
                lemma_le_value_bound(self.mem@.subrange(addr as int, addr + width));
            }
            Ok(v)
        } else if addr >= STACK_BASE as i128 && addr + w <= STACK_BASE as i128 + STACK_SIZE as i128 {
            let o = (addr - STACK_BASE as i128) as usize;
            let v = read_le(&self.stack, o, width);
            Ok(v)
        } else {
            Err(Fault::OutOfBounds)
        }
    }

    /// Writes the low `width` bytes of `v` at `addr`.
    pub fn store(&mut self, addr: i128, width: usize, v: u64) -> (r: Result<(), Fault>)
        requires
            old(self).wf(),
            width <= 8,
            address_in_range(addr as int),
        ensures
            final(self).wf(),
            match store_spec(old(self).mem@, old(self).stack@, addr as int, width as nat, v) {
                Ok((m, s)) => r is Ok && final(self).mem@ == m && final(self).stack@ == s,
                Err(f) => r == Err::<(), Fault>(f) && final(self).mem@ == old(self).mem@
                    && final(self).stack@ == old(self).stack@,
            },
    {
        let w = width as i128;
        if addr >= 0 && addr + w <= self.mem.len() as i128 {
            write_le(&mut self.mem, addr as usize, width, v);
            Ok(())
        } else if addr >= STACK_BASE as i128 && addr + w <= STACK_BASE as i128 + STACK_SIZE as i128 {
            let o = (addr - STACK_BASE as i128) as usize;
            write_le(&mut self.stack, o, width, v);
            Ok(())
        } else {
            Err(Fault::OutOfBounds)
        }
    }
}

} // verus!
