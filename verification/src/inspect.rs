//! Finding the commands that touch the country or the region register.

use vstd::prelude::*;
use crate::args::{PSR_COUNTRY, PSR_REGION};
use crate::operand::{Operand, OperandCount};
use crate::record::NavigationCommand;

verus! {

/// How a command touches the country or the region register.
#[derive(Clone, Copy, Debug, PartialEq, Eq, Structural)]
pub enum RegionCheck {
    /// It has both operands and reads the register as its source.
    Reads,
    /// It names the register as its destination, though both registers are
    /// read-only.
    Unexpected,
}

/// Whether an operand is the country or the region register.
pub open spec fn is_locale_register(op: Operand) -> bool {
    op == Operand::Psr(PSR_COUNTRY) || op == Operand::Psr(PSR_REGION)
}

/// How a command touches the country or the region register, if at all. A
/// read as source counts only where the command has both operands, and then
/// before anything else.
pub open spec fn region_check_of(c: NavigationCommand) -> Option<RegionCheck> {
    if c.operand_count == OperandCount::DestinationAndSource && is_locale_register(c.source) {
        Some(RegionCheck::Reads)
    } else if is_locale_register(c.destination) {
        Some(RegionCheck::Unexpected)
    } else {
        None
    }
}

/// Whether an operand is the country or the region register.
pub fn names_locale_register(op: &Operand) -> (r: bool)
    ensures
        r == is_locale_register(*op),
{
    match op {
        Operand::Psr(n) => *n == PSR_COUNTRY || *n == PSR_REGION,
        _ => false,
    }
}

/// How a command touches the country or the region register, if at all.
pub fn region_check(c: &NavigationCommand) -> (r: Option<RegionCheck>)
    ensures
        r == region_check_of(*c),
{
    let both = match c.operand_count {
        OperandCount::DestinationAndSource => true,
        _ => false,
    };
    if both && names_locale_register(&c.source) {
        Some(RegionCheck::Reads)
    } else if names_locale_register(&c.destination) {
        Some(RegionCheck::Unexpected)
    } else {
        None
    }
}

} // verus!
