//! Operands of a navigation command: an immediate constant or a reference to
//! a register, and the 32-bit value each is written as.

use vstd::prelude::*;

verus! {

/// How many of its two operand slots a command uses.
#[derive(Clone, Copy, Debug, PartialEq, Eq, Structural)]
pub enum OperandCount {
    NoOperand,
    DestinationOnly,
    DestinationAndSource,
}

/// One operand of a navigation command.
#[derive(Clone, Copy, Debug, PartialEq, Eq, Structural)]
pub enum Operand {
    /// A constant.
    Immediate(u32),
    /// A general-purpose register, 0 to 4095.
    Gpr(u16),
    /// A player-specific register, 0 to 127. Register 19 holds the country,
    /// register 20 the region.
    Psr(u8),
    /// A register reference outside both ranges. It holds the value without
    /// its top bit.
    Unknown(u32),
}

/// The top bit of a register value: set for a player-specific register.
pub const PSR_BIT: u32 = 0x8000_0000;

/// The number of general-purpose registers.
pub const GPR_COUNT: u32 = 4096;

/// The number of player-specific registers.
pub const PSR_COUNT: u32 = 128;

/// The arity that a 3-bit arity code stands for: only 0, 1 and 2 are codes.
pub open spec fn arity_of(code: u8) -> Option<OperandCount> {
    if code == 0 {
        Some(OperandCount::NoOperand)
    } else if code == 1 {
        Some(OperandCount::DestinationOnly)
    } else if code == 2 {
        Some(OperandCount::DestinationAndSource)
    } else {
        None
    }
}

/// The register that a 32-bit register value refers to.
pub open spec fn register_of(num: u32) -> Operand {
    if num >= PSR_BIT {
        let rest = (num - PSR_BIT) as u32;
        if rest < PSR_COUNT {
            Operand::Psr(rest as u8)
        } else {
            Operand::Unknown(rest)
        }
    } else if num < GPR_COUNT {
        Operand::Gpr(num as u16)
    } else {
        Operand::Unknown(num)
    }
}

/// The operand that a 32-bit value stands for under its is-immediate flag.
pub open spec fn operand_of(immediate: bool, value: u32) -> Operand {
    if immediate {
        Operand::Immediate(value)
    } else {
        register_of(value)
    }
}

impl OperandCount {
    /// The 3-bit code of this arity.
    pub open spec fn spec_code(self) -> u8 {
        match self {
            OperandCount::NoOperand => 0,
            OperandCount::DestinationOnly => 1,
            OperandCount::DestinationAndSource => 2,
        }
    }

    /// The 3-bit code of this arity.
    pub fn code(&self) -> (r: u8)
        ensures
            r == self.spec_code(),
            arity_of(r) == Some(*self),
    {
        match self {
            OperandCount::NoOperand => 0,
            OperandCount::DestinationOnly => 1,
            OperandCount::DestinationAndSource => 2,
        }
    }

    /// The arity of a 3-bit code, or `None` for the codes 3 to 7.
    pub fn from_code(code: u8) -> (r: Option<OperandCount>)
        ensures
            r == arity_of(code),
            r is Some <==> code <= 2,
    {
        match code {
            0 => Some(OperandCount::NoOperand),
            1 => Some(OperandCount::DestinationOnly),
            2 => Some(OperandCount::DestinationAndSource),
            _ => None,
        }
    }
}

impl Operand {
    /// Whether a decoder can return this operand: a register number lies in
    /// its range, and an unknown reference lies outside both ranges and below
    /// the top bit.
    pub open spec fn wf(self) -> bool {
        match self {
            Operand::Immediate(_) => true,
            Operand::Gpr(n) => n < GPR_COUNT,
            Operand::Psr(n) => n < PSR_COUNT,
            Operand::Unknown(v) => PSR_COUNT <= v < PSR_BIT,
        }
    }

    /// Whether this operand is written with its is-immediate flag set.
    pub open spec fn spec_is_immediate(self) -> bool {
        self is Immediate
    }

    /// The 32-bit value this operand is written as. An unknown reference
    /// below 4096 can only have come from a value with the top bit set; any
    /// other is written without it.
    pub open spec fn spec_raw(self) -> u32 {
        match self {
            Operand::Immediate(v) => v,
            Operand::Gpr(n) => n as u32,
            Operand::Psr(n) => (PSR_BIT + n) as u32,
            Operand::Unknown(v) => if v < GPR_COUNT {
                (PSR_BIT + v) as u32
            } else {
                v
            },
        }
    }

    /// Classifies a 32-bit register value.
    ///
    /// With the top bit set, the remaining bits name a player-specific
    /// register if below 128 and are unknown otherwise; with the top bit
    /// clear, the value names a general-purpose register if below 4096 and is
    /// unknown otherwise.
    pub fn new_register(num: u32) -> (r: Operand)
        ensures
            r == register_of(num),
            r.wf(),
            !(r is Immediate),
            num >= PSR_BIT && num - PSR_BIT < 128 ==> r == Operand::Psr((num - PSR_BIT) as u8),
            num >= PSR_BIT && num - PSR_BIT >= 128 ==> r == Operand::Unknown(
                (num - PSR_BIT) as u32,
            ),
            num < 4096 ==> r == Operand::Gpr(num as u16),
            4096 <= num < PSR_BIT ==> r == Operand::Unknown(num),
    {
        if (num & 0x8000_0000) != 0 {
            let rest: u32 = num & !0x8000_0000u32;
            assert(num >= 0x8000_0000u32 && rest == num - 0x8000_0000u32) by (bit_vector)
                requires
                    (num & 0x8000_0000) != 0,
                    rest == num & !0x8000_0000u32,
            ;
            if rest < 128 {
                Operand::Psr(rest as u8)
            } else {
                Operand::Unknown(rest)
            }
        } else {
            assert(num < 0x8000_0000u32) by (bit_vector)
                requires
                    (num & 0x8000_0000) == 0,
            ;
            if num < 4096 {
                Operand::Gpr(num as u16)
            } else {
                Operand::Unknown(num)
            }
        }
    }

    /// The operand that a 32-bit value stands for under its is-immediate flag.
    pub fn decode(immediate: bool, value: u32) -> (r: Operand)
        ensures
            r == operand_of(immediate, value),
            r.wf(),
            immediate ==> r == Operand::Immediate(value),
    {
        if immediate {
            Operand::Immediate(value)
        } else {
            Operand::new_register(value)
        }
    }

    /// Whether this operand is written with its is-immediate flag set.
    pub fn is_immediate(&self) -> (r: bool)
        ensures
            r == self.spec_is_immediate(),
    {
        match self {
            Operand::Immediate(_) => true,
            _ => false,
        }
    }

    /// The 32-bit value this operand is written as.
    pub fn raw(&self) -> (r: u32)
        ensures
            r == self.spec_raw(),
            self.wf() ==> operand_of(self.spec_is_immediate(), r) == *self,
    {
        match self {
            Operand::Immediate(v) => *v,
            Operand::Gpr(n) => *n as u32,
            Operand::Psr(n) => PSR_BIT + (*n as u32),
            Operand::Unknown(v) => {
                if *v < GPR_COUNT {
                    PSR_BIT + *v
                } else {
                    *v
                }
            },
        }
    }
}

/// Writing an operand that a decoder can return, and reading the value back
/// under the same flag, gives the operand again.
pub proof fn lemma_operand_round_trip(op: Operand)
    requires
        op.wf(),
    ensures
        operand_of(op.spec_is_immediate(), op.spec_raw()) == op,
{
}

/// Reading a value and writing the operand back gives the value again, but
/// for one case: a register value without the top bit that is no
/// general-purpose register is read as unknown, and so is the same value with
/// the top bit set when it is at least 4096; the second is written as the
/// first.
pub proof fn lemma_value_round_trip(immediate: bool, value: u32)
    ensures
        operand_of(immediate, value).wf(),
        operand_of(immediate, value).spec_is_immediate() == immediate,
        immediate || value < PSR_BIT + GPR_COUNT ==> operand_of(immediate, value).spec_raw()
            == value,
{
}

} // verus!
