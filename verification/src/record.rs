//! One navigation command: a 12-byte record, the fields read from it, and
//! the record written for given fields.

use vstd::prelude::*;
use crate::bytes::{be32, be32_bytes, lemma_be32_bytes_value, read_be32};
use crate::opcode::{command_of, decode_command, Branch, Command};
use crate::operand::{arity_of, operand_of, Operand, OperandCount};

verus! {

/// Why a 12-byte record is no navigation command.
#[derive(Clone, Copy, Debug, PartialEq, Eq, Structural)]
pub enum RecordError {
    /// The arity code, which it holds, is none of 0, 1 and 2.
    BadOperandCount(u8),
    /// The opcode fields select no operation.
    InvalidCommand,
}

/// A decoded navigation command, with the record it was read from or written
/// as.
#[derive(Clone, Copy, Debug, PartialEq, Eq)]
pub struct NavigationCommand {
    pub command: Command,
    pub operand_count: OperandCount,
    pub destination: Operand,
    pub source: Operand,
    pub raw_bytes: [u8; 12],
}

/// The arity code: bits 5 to 7 of byte 0.
pub open spec fn arity_bits(b: Seq<u8>) -> u8 {
    (b[0] >> 5) & 0x7
}

/// The opcode group: bits 3 and 4 of byte 0.
pub open spec fn group_bits(b: Seq<u8>) -> u8 {
    (b[0] >> 3) & 0x3
}

/// The opcode sub-group: bits 0 to 2 of byte 0.
pub open spec fn sub_group_bits(b: Seq<u8>) -> u8 {
    b[0] & 0x7
}

/// The destination's is-immediate flag: bit 7 of byte 1.
pub open spec fn destination_flag(b: Seq<u8>) -> bool {
    b[1] & 0x80 != 0
}

/// The source's is-immediate flag: bit 6 of byte 1.
pub open spec fn source_flag(b: Seq<u8>) -> bool {
    b[1] & 0x40 != 0
}

/// The branch option: the low four bits of byte 1.
pub open spec fn branch_option_bits(b: Seq<u8>) -> u8 {
    b[1] & 0xf
}

/// The compare option: the low four bits of byte 2.
pub open spec fn compare_option_bits(b: Seq<u8>) -> u8 {
    b[2] & 0xf
}

/// The set option: the low five bits of byte 3.
pub open spec fn set_option_bits(b: Seq<u8>) -> u8 {
    b[3] & 0x1f
}

/// The operation that a record's opcode fields select, if any.
pub open spec fn record_command(b: Seq<u8>) -> Option<Command> {
    command_of(
        group_bits(b),
        sub_group_bits(b),
        branch_option_bits(b),
        compare_option_bits(b),
        set_option_bits(b),
    )
}

/// Why a record is no navigation command, or `None` where it is one. The
/// arity is judged before the opcode.
pub open spec fn record_error(b: Seq<u8>) -> Option<RecordError> {
    if arity_of(arity_bits(b)) is None {
        Some(RecordError::BadOperandCount(arity_bits(b)))
    } else if record_command(b) is None {
        Some(RecordError::InvalidCommand)
    } else {
        None
    }
}

/// Byte 0 of a record: arity, group and sub-group.
pub open spec fn opcode_byte(arity: u8, group: u8, sub_group: u8) -> u8 {
    (arity << 5) | (group << 3) | sub_group
}

/// Byte 1 of a record: the two is-immediate flags and the branch option.
pub open spec fn flags_byte(destination: bool, source: bool, branch_option: u8) -> u8 {
    (if destination {
        0x80u8
    } else {
        0u8
    }) | (if source {
        0x40u8
    } else {
        0u8
    }) | branch_option
}

/// The record written for an operation, an arity and two operands: every bit
/// that no field uses is zero.
pub open spec fn encode_record(
    command: Command,
    operand_count: OperandCount,
    destination: Operand,
    source: Operand,
) -> Seq<u8> {
    let f = command.spec_fields();
    seq![
        opcode_byte(operand_count.spec_code(), f.group, f.sub_group),
        flags_byte(destination.spec_is_immediate(), source.spec_is_immediate(), f.branch_option),
        f.compare_option,
        f.set_option,
    ] + be32_bytes(destination.spec_raw()) + be32_bytes(source.spec_raw())
}

/// A record with its source turned into an immediate constant: bit 6 of byte
/// 1 is set, bytes 8 to 11 hold the constant, the rest is kept.
pub open spec fn immediate_source_record(b: Seq<u8>, value: u32) -> Seq<u8> {
    b.subrange(0, 8).update(1, b[1] | 0x40) + be32_bytes(value)
}

/// The record of twelve zero bytes.
pub open spec fn nop_record() -> Seq<u8> {
    Seq::new(12, |i: int| 0u8)
}

proof fn lemma_opcode_byte(arity: u8, group: u8, sub_group: u8)
    by (bit_vector)
    requires
        arity <= 2,
        group <= 2,
        sub_group <= 2,
    ensures
        (((arity << 5) | (group << 3) | sub_group) >> 5) & 0x7 == arity,
        (((arity << 5) | (group << 3) | sub_group) >> 3) & 0x3 == group,
        ((arity << 5) | (group << 3) | sub_group) & 0x7 == sub_group,
{
}

proof fn lemma_flags_byte(d: u8, s: u8, option: u8)
    by (bit_vector)
    requires
        d == 0x80 || d == 0,
        s == 0x40 || s == 0,
        option <= 5,
    ensures
        ((d | s | option) & 0x80 != 0) == (d == 0x80),
        ((d | s | option) & 0x40 != 0) == (s == 0x40),
        (d | s | option) & 0xf == option,
{
}

proof fn lemma_option_bytes(c: u8, s: u8)
    by (bit_vector)
    requires
        c <= 7,
        s <= 15,
    ensures
        c & 0xf == c,
        s & 0x1f == s,
{
}

/// Setting bit 6 of a byte leaves bit 7 and the low four bits as they are.
pub proof fn lemma_source_flag_set(b: u8)
    by (bit_vector)
    ensures
        (b | 0x40) & 0x40 != 0,
        ((b | 0x40) & 0x80 != 0) == (b & 0x80 != 0),
        (b | 0x40) & 0xf == b & 0xf,
{
}

/// Every bit field of a zero byte is zero.
pub proof fn lemma_zero_byte()
    by (bit_vector)
    ensures
        (0u8 >> 5) & 0x7 == 0,
        (0u8 >> 3) & 0x3 == 0,
        0u8 & 0x7 == 0,
        0u8 & 0x80 == 0,
        0u8 & 0x40 == 0,
        0u8 & 0xf == 0,
        0u8 & 0x1f == 0,
{
}

impl NavigationCommand {
    /// Whether the fields are those that the record decodes to.
    pub open spec fn wf(&self) -> bool {
        let b = self.raw_bytes@;
        &&& arity_of(arity_bits(b)) == Some(self.operand_count)
        &&& record_command(b) == Some(self.command)
        &&& self.destination == operand_of(destination_flag(b), be32(b, 4))
        &&& self.source == operand_of(source_flag(b), be32(b, 8))
    }

    /// Decodes one record.
    ///
    /// Fails exactly on a record with an arity code above 2 or with opcode
    /// fields that select no operation. Otherwise the result keeps the record
    /// and holds the fields read from it.
    pub fn from_bytes(bytes: &[u8; 12]) -> (r: Result<NavigationCommand, RecordError>)
        ensures
            match r {
                Ok(c) => c.raw_bytes@ == bytes@ && c.wf() && record_error(bytes@) is None,
                Err(e) => record_error(bytes@) == Some(e),
            },
            arity_bits(bytes@) > 2 ==> r == Err::<NavigationCommand, RecordError>(
                RecordError::BadOperandCount(arity_bits(bytes@)),
            ),
    {
        let arity: u8 = (bytes[0] >> 5) & 0x7;
        let operand_count = match OperandCount::from_code(arity) {
            Some(n) => n,
            None => {
                return Err(RecordError::BadOperandCount(arity));
            },
        };
        let command_group: u8 = (bytes[0] >> 3) & 0x3;
        let command_sub_group: u8 = bytes[0] & 0x7;
        let destination_is_immediate = (bytes[1] & 0x80) != 0;
        let source_is_immediate = (bytes[1] & 0x40) != 0;
        let branch_option: u8 = bytes[1] & 0xf;
        let compare_option: u8 = bytes[2] & 0xf;
        let set_option: u8 = bytes[3] & 0x1f;
        let command = match decode_command(
            command_group,
            command_sub_group,
            branch_option,
            compare_option,
            set_option,
        ) {
            Some(c) => c,
            None => {
                return Err(RecordError::InvalidCommand);
            },
        };
        let destination = Operand::decode(
            destination_is_immediate,
            read_be32(bytes.as_slice(), 4),
        );
        let source = Operand::decode(source_is_immediate, read_be32(bytes.as_slice(), 8));
        Ok(NavigationCommand { command, operand_count, destination, source, raw_bytes: *bytes })
    }

    /// Builds the command with the given fields and writes its record.
    ///
    /// The operands must be ones that a decoder can return. The record then
    /// decodes to exactly the given fields.
    pub fn new(
        command: Command,
        operand_count: OperandCount,
        destination: Operand,
        source: Operand,
    ) -> (r: NavigationCommand)
        requires
            destination.wf(),
            source.wf(),
        ensures
            r.wf(),
            r.command == command,
            r.operand_count == operand_count,
            r.destination == destination,
            r.source == source,
            r.raw_bytes@ == encode_record(command, operand_count, destination, source),
            record_error(r.raw_bytes@) is None,
    {
        let f = command.fields();
        let arity: u8 = operand_count.code();
        let d: u8 = if destination.is_immediate() {
            0x80
        } else {
            0
        };
        let s: u8 = if source.is_immediate() {
            0x40
        } else {
            0
        };
        let dv: u32 = destination.raw();
        let sv: u32 = source.raw();
        let raw_bytes: [u8; 12] = [
            (arity << 5) | (f.group << 3) | f.sub_group,
            d | s | f.branch_option,
            f.compare_option,
            f.set_option,
            (dv / 0x100_0000) as u8,
            (dv / 0x1_0000 % 0x100) as u8,
            (dv / 0x100 % 0x100) as u8,
            (dv % 0x100) as u8,
            (sv / 0x100_0000) as u8,
            (sv / 0x1_0000 % 0x100) as u8,
            (sv / 0x100 % 0x100) as u8,
            (sv % 0x100) as u8,
        ];
        proof {
            assert(raw_bytes@ =~= encode_record(command, operand_count, destination, source));
            lemma_encoded_record_decodes(command, operand_count, destination, source);
        }
        NavigationCommand { command, operand_count, destination, source, raw_bytes }
    }

    /// The no-op: the record of twelve zero bytes, which is a branch `Nop`
    /// that uses no operand.
    pub fn nop() -> (r: NavigationCommand)
        ensures
            r.wf(),
            r.raw_bytes@ == nop_record(),
            r.command == Command::Branch(Branch::Nop),
            r.operand_count == OperandCount::NoOperand,
            r.destination == Operand::Gpr(0),
            r.source == Operand::Gpr(0),
    {
        let raw_bytes: [u8; 12] = [0, 0, 0, 0, 0, 0, 0, 0, 0, 0, 0, 0];
        proof {
            lemma_zero_byte();
            assert(raw_bytes@ =~= nop_record());
        }
        NavigationCommand {
            command: Command::Branch(Branch::Nop),
            operand_count: OperandCount::NoOperand,
            destination: Operand::Gpr(0),
            source: Operand::Gpr(0),
            raw_bytes,
        }
    }

    /// The same command with its source replaced by an immediate constant.
    ///
    /// Operation, arity and destination stay; in the record only the source's
    /// is-immediate flag and the four source bytes change.
    pub fn with_immediate_source(&self, value: u32) -> (r: NavigationCommand)
        requires
            self.wf(),
        ensures
            r.wf(),
            r.command == self.command,
            r.operand_count == self.operand_count,
            r.destination == self.destination,
            r.source == Operand::Immediate(value),
            r.raw_bytes@ == immediate_source_record(self.raw_bytes@, value),
    {
        let b = &self.raw_bytes;
        proof {
            lemma_source_flag_set(b[1]);
        }
        let raw_bytes: [u8; 12] = [
            b[0],
            b[1] | 0x40,
            b[2],
            b[3],
            b[4],
            b[5],
            b[6],
            b[7],
            (value / 0x100_0000) as u8,
            (value / 0x1_0000 % 0x100) as u8,
            (value / 0x100 % 0x100) as u8,
            (value % 0x100) as u8,
        ];
        proof {
            assert(raw_bytes@ =~= immediate_source_record(self.raw_bytes@, value));
            assert(be32(raw_bytes@, 4) == be32(self.raw_bytes@, 4));
            lemma_be32_bytes_value(value);
            assert(be32(raw_bytes@, 8) == value);
        }
        NavigationCommand {
            command: self.command,
            operand_count: self.operand_count,
            destination: self.destination,
            source: Operand::Immediate(value),
            raw_bytes,
        }
    }

    /// Whether the fields are those that the record decodes to.
    pub fn is_well_formed(&self) -> (r: bool)
        ensures
            r == self.wf(),
    {
        match NavigationCommand::from_bytes(&self.raw_bytes) {
            Ok(c) => c.command == self.command && c.operand_count == self.operand_count
                && c.destination == self.destination && c.source == self.source,
            Err(_) => false,
        }
    }

    /// The record of this command, byte for byte as it was read or written.
    pub fn to_bytes(&self) -> (r: [u8; 12])
        ensures
            r@ == self.raw_bytes@,
    {
        self.raw_bytes
    }
}

/// The record written for given fields decodes to those fields, provided the
/// operands are ones that a decoder can return.
pub proof fn lemma_encoded_record_decodes(
    command: Command,
    operand_count: OperandCount,
    destination: Operand,
    source: Operand,
)
    requires
        destination.wf(),
        source.wf(),
    ensures
        ({
            let b = encode_record(command, operand_count, destination, source);
            &&& b.len() == 12
            &&& record_error(b) is None
            &&& arity_of(arity_bits(b)) == Some(operand_count)
            &&& record_command(b) == Some(command)
            &&& operand_of(destination_flag(b), be32(b, 4)) == destination
            &&& operand_of(source_flag(b), be32(b, 8)) == source
        }),
{
    let b = encode_record(command, operand_count, destination, source);
    let f = command.spec_fields();
    let arity = operand_count.spec_code();
    let d: u8 = if destination.spec_is_immediate() {
        0x80
    } else {
        0
    };
    let s: u8 = if source.spec_is_immediate() {
        0x40
    } else {
        0
    };
    assert(f.group <= 2 && f.sub_group <= 2 && f.branch_option <= 5 && f.compare_option <= 7
        && f.set_option <= 15);
    lemma_opcode_byte(arity, f.group, f.sub_group);
    lemma_flags_byte(d, s, f.branch_option);
    lemma_option_bytes(f.compare_option, f.set_option);
    crate::opcode::lemma_fields_round_trip(command);
    lemma_be32_bytes_value(destination.spec_raw());
    lemma_be32_bytes_value(source.spec_raw());
    crate::operand::lemma_operand_round_trip(destination);
    crate::operand::lemma_operand_round_trip(source);
    assert(b[0] == opcode_byte(arity, f.group, f.sub_group));
    assert(b[1] == d | s | f.branch_option);
    assert(b[2] == f.compare_option);
    assert(b[3] == f.set_option);
    assert(be32(b, 4) == destination.spec_raw());
    assert(be32(b, 8) == source.spec_raw());
}

/// A record determines its command: two commands that both hold the fields
/// of their record, and hold the same record, hold the same fields.
pub proof fn lemma_record_determines_fields(a: NavigationCommand, b: NavigationCommand)
    requires
        a.wf(),
        b.wf(),
        a.raw_bytes@ == b.raw_bytes@,
    ensures
        a.command == b.command,
        a.operand_count == b.operand_count,
        a.destination == b.destination,
        a.source == b.source,
{
}

/// Arity codes 3 to 7 are refused, whatever the rest of the record holds, and
/// codes 0 to 2 are never the reason for a refusal.
pub proof fn lemma_arity_totality(b: Seq<u8>)
    requires
        b.len() == 12,
    ensures
        arity_bits(b) <= 7,
        arity_bits(b) > 2 ==> record_error(b) == Some(
            RecordError::BadOperandCount(arity_bits(b)),
        ),
        arity_bits(b) <= 2 ==> !(record_error(b) is Some && record_error(b)->Some_0
            is BadOperandCount),
{
    let x = b[0];
    assert((x >> 5) & 0x7 <= 7) by (bit_vector);
}

} // verus!
