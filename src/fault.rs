use vstd::prelude::*;

verus! {

/// Why a run stopped without returning a value.
#[derive(Clone, Copy, Debug, PartialEq, Eq, Structural)]
pub enum Fault {
    /// The program's length is not a whole number of slots, or a wide
    /// immediate load has no second slot.
    TruncatedProgram,
    /// A register field names a register above 10.
    InvalidRegister,
    /// A byte-swap asks for a width other than 16, 32 or 64.
    InvalidSwapWidth,
    /// Division or remainder by zero.
    DivideByZero,
    /// A load or store reaches outside the address space and the stack.
    OutOfBounds,
    /// The opcode names no operation.
    UnknownOpcode(u8),
    /// Control left the program without a return.
    MissingReturn,
    /// The step budget ran out.
    BudgetExhausted,
}

/// The broad class of a fault.
#[derive(Clone, Copy, Debug, PartialEq, Eq, Structural)]
pub enum FaultKind {
    Decode,
    Arithmetic,
    Memory,
    Control,
}

pub open spec fn kind_spec(f: Fault) -> FaultKind {
    match f {
        Fault::TruncatedProgram | Fault::InvalidRegister | Fault::InvalidSwapWidth => FaultKind::Decode,
        Fault::DivideByZero => FaultKind::Arithmetic,
        Fault::OutOfBounds => FaultKind::Memory,
        Fault::UnknownOpcode(_) | Fault::MissingReturn | Fault::BudgetExhausted => FaultKind::Control,
    }
}

impl Fault {
    /// The class this fault belongs to.
    pub fn kind(&self) -> (r: FaultKind)
        ensures
            r == kind_spec(*self),
    {
        match self {
            Fault::TruncatedProgram | Fault::InvalidRegister | Fault::InvalidSwapWidth => FaultKind::Decode,
            Fault::DivideByZero => FaultKind::Arithmetic,
            Fault::OutOfBounds => FaultKind::Memory,
            Fault::UnknownOpcode(_) | Fault::MissingReturn | Fault::BudgetExhausted => FaultKind::Control,
        }
    }
}

} // verus!
