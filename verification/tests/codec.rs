use bluray_nav::{
    decode_command, BluRay, Branch, Command, Compare, MovieObject, NavigationCommand, OpenError,
    Operand, OperandCount, RecordError, SetOp,
};

fn header(count: u16) -> Vec<u8> {
    let mut v = b"MOBJ0200".to_vec();
    v.extend_from_slice(&[0x00, 0x00, 0x01, 0x00]);
    for i in 0..28u8 {
        v.push(0xa0 + i);
    }
    v.extend_from_slice(&[0x00, 0x00, 0x00, 0x10]);
    v.extend_from_slice(&[0xde, 0xad, 0xbe, 0xef]);
    v.extend_from_slice(&count.to_be_bytes());
    v
}

const MOVE_GPR_PSR20: [u8; 12] =
    [0x50, 0x00, 0x00, 0x01, 0x00, 0x00, 0x00, 0x05, 0x80, 0x00, 0x00, 0x14];

#[test]
fn opcode_table_branch_entries() {
    assert_eq!(decode_command(0, 0, 0, 9, 9), Some(Command::Branch(Branch::Nop)));
    assert_eq!(decode_command(0, 0, 1, 0, 0), Some(Command::Branch(Branch::GoTo)));
    assert_eq!(decode_command(0, 0, 2, 0, 0), Some(Command::Branch(Branch::Break)));
    assert_eq!(decode_command(0, 1, 0, 0, 0), Some(Command::Branch(Branch::JumpObject)));
    assert_eq!(decode_command(0, 1, 1, 0, 0), Some(Command::Branch(Branch::JumpTitle)));
    assert_eq!(decode_command(0, 1, 2, 0, 0), Some(Command::Branch(Branch::CallObject)));
    assert_eq!(decode_command(0, 1, 3, 0, 0), Some(Command::Branch(Branch::CallTitle)));
    assert_eq!(decode_command(0, 1, 4, 0, 0), Some(Command::Branch(Branch::Resume)));
    assert_eq!(decode_command(0, 2, 0, 0, 0), Some(Command::Branch(Branch::PlayList)));
    assert_eq!(decode_command(0, 2, 1, 0, 0), Some(Command::Branch(Branch::PlayItem)));
    assert_eq!(decode_command(0, 2, 2, 0, 0), Some(Command::Branch(Branch::PlayMark)));
    assert_eq!(decode_command(0, 2, 3, 0, 0), Some(Command::Branch(Branch::Terminate)));
    assert_eq!(decode_command(0, 2, 4, 0, 0), Some(Command::Branch(Branch::LinkItem)));
    assert_eq!(decode_command(0, 2, 5, 0, 0), Some(Command::Branch(Branch::LinkMark)));
}

#[test]
fn opcode_table_compare_entries() {
    assert_eq!(decode_command(1, 7, 15, 1, 31), Some(Command::Compare(Compare::Bc)));
    assert_eq!(decode_command(1, 0, 0, 2, 0), Some(Command::Compare(Compare::Eq)));
    assert_eq!(decode_command(1, 0, 0, 3, 0), Some(Command::Compare(Compare::Ne)));
    assert_eq!(decode_command(1, 0, 0, 4, 0), Some(Command::Compare(Compare::Ge)));
    assert_eq!(decode_command(1, 0, 0, 5, 0), Some(Command::Compare(Compare::Gt)));
    assert_eq!(decode_command(1, 0, 0, 6, 0), Some(Command::Compare(Compare::Le)));
    assert_eq!(decode_command(1, 0, 0, 7, 0), Some(Command::Compare(Compare::Lt)));
}

#[test]
fn opcode_table_set_entries() {
    let first = [
        SetOp::Move,
        SetOp::Swap,
        SetOp::Add,
        SetOp::Sub,
        SetOp::Mul,
        SetOp::Div,
        SetOp::Mod,
        SetOp::Rnd,
        SetOp::And,
        SetOp::Or,
        SetOp::Xor,
        SetOp::Bitset,
        SetOp::Bitclr,
        SetOp::ShiftLeft,
        SetOp::ShiftRight,
    ];
    for (i, op) in first.iter().enumerate() {
        assert_eq!(decode_command(2, 0, 7, 7, (i + 1) as u8), Some(Command::SetOp(*op)));
    }
    let second = [
        SetOp::SetStream,
        SetOp::SetNVTimer,
        SetOp::ButtonPage,
        SetOp::EnableButton,
        SetOp::DisableButton,
        SetOp::SetSecondaryStream,
        SetOp::PopupOff,
        SetOp::StillOn,
        SetOp::StillOff,
    ];
    for (i, op) in second.iter().enumerate() {
        assert_eq!(decode_command(2, 1, 0, 0, (i + 1) as u8), Some(Command::SetOp(*op)));
    }
}

#[test]
fn opcode_table_gaps() {
    assert_eq!(decode_command(0, 0, 3, 0, 0), None);
    assert_eq!(decode_command(0, 1, 5, 0, 0), None);
    assert_eq!(decode_command(0, 2, 6, 0, 0), None);
    assert_eq!(decode_command(0, 3, 0, 0, 0), None);
    assert_eq!(decode_command(1, 0, 0, 0, 0), None);
    assert_eq!(decode_command(1, 0, 0, 8, 0), None);
    assert_eq!(decode_command(2, 0, 0, 0, 0), None);
    assert_eq!(decode_command(2, 0, 0, 0, 0x10), None);
    assert_eq!(decode_command(2, 1, 0, 0, 0xa), None);
    assert_eq!(decode_command(2, 2, 0, 0, 1), None);
    assert_eq!(decode_command(3, 0, 0, 1, 1), None);
}

#[test]
fn opcode_fields_are_inverse_to_the_table() {
    for group in 0..4u8 {
        for sub_group in 0..8u8 {
            for option in 0..32u8 {
                let branch_option = option & 0xf;
                let compare_option = (option >> 1) & 0xf;
                if let Some(c) =
                    decode_command(group, sub_group, branch_option, compare_option, option)
                {
                    let f = c.fields();
                    assert_eq!(
                        decode_command(
                            f.group,
                            f.sub_group,
                            f.branch_option,
                            f.compare_option,
                            f.set_option
                        ),
                        Some(c)
                    );
                }
            }
        }
    }
}

#[test]
fn register_classification() {
    assert_eq!(Operand::new_register(0), Operand::Gpr(0));
    assert_eq!(Operand::new_register(4095), Operand::Gpr(4095));
    assert_eq!(Operand::new_register(4096), Operand::Unknown(4096));
    assert_eq!(Operand::new_register(0x7fff_ffff), Operand::Unknown(0x7fff_ffff));
    assert_eq!(Operand::new_register(0x8000_0000), Operand::Psr(0));
    assert_eq!(Operand::new_register(0x8000_0013), Operand::Psr(19));
    assert_eq!(Operand::new_register(0x8000_007f), Operand::Psr(127));
    assert_eq!(Operand::new_register(0x8000_0080), Operand::Unknown(128));
    assert_eq!(Operand::new_register(0xffff_ffff), Operand::Unknown(0x7fff_ffff));
}

#[test]
fn operand_raw_values() {
    assert_eq!(Operand::Immediate(0xdead_beef).raw(), 0xdead_beef);
    assert_eq!(Operand::Gpr(7).raw(), 7);
    assert_eq!(Operand::Psr(20).raw(), 0x8000_0014);
    assert_eq!(Operand::Unknown(200).raw(), 0x8000_00c8);
    assert_eq!(Operand::Unknown(5000).raw(), 5000);
    assert!(Operand::Immediate(1).is_immediate());
    assert!(!Operand::Psr(1).is_immediate());
    assert_eq!(Operand::decode(true, 0x8000_0014), Operand::Immediate(0x8000_0014));
    assert_eq!(Operand::decode(false, 0x8000_0014), Operand::Psr(20));
}

#[test]
fn arity_codes() {
    assert_eq!(OperandCount::from_code(0), Some(OperandCount::NoOperand));
    assert_eq!(OperandCount::from_code(1), Some(OperandCount::DestinationOnly));
    assert_eq!(OperandCount::from_code(2), Some(OperandCount::DestinationAndSource));
    for code in 3..8u8 {
        assert_eq!(OperandCount::from_code(code), None);
    }
    assert_eq!(OperandCount::DestinationAndSource.code(), 2);
}

#[test]
fn arity_codes_above_two_are_refused() {
    for code in 0..8u8 {
        for low in 0..32u8 {
            let mut bytes = [0u8; 12];
            bytes[0] = (code << 5) | low;
            bytes[3] = 1;
            bytes[2] = 1;
            let r = NavigationCommand::from_bytes(&bytes);
            if code > 2 {
                assert_eq!(r, Err(RecordError::BadOperandCount(code)));
            } else {
                assert_ne!(r, Err(RecordError::BadOperandCount(code)));
            }
        }
    }
}

#[test]
fn record_decodes_to_its_fields() {
    let c = NavigationCommand::from_bytes(&MOVE_GPR_PSR20).unwrap();
    assert_eq!(c.command, Command::SetOp(SetOp::Move));
    assert_eq!(c.operand_count, OperandCount::DestinationAndSource);
    assert_eq!(c.destination, Operand::Gpr(5));
    assert_eq!(c.source, Operand::Psr(20));
    assert_eq!(c.to_bytes(), MOVE_GPR_PSR20);
}

#[test]
fn source_is_read_from_bytes_eight_to_eleven() {
    let bytes = [0x48, 0xc0, 0x02, 0x00, 0x01, 0x02, 0x03, 0x04, 0x0a, 0x0b, 0x0c, 0x0d];
    let c = NavigationCommand::from_bytes(&bytes).unwrap();
    assert_eq!(c.command, Command::Compare(Compare::Eq));
    assert_eq!(c.operand_count, OperandCount::DestinationAndSource);
    assert_eq!(c.destination, Operand::Immediate(0x0102_0304));
    assert_eq!(c.source, Operand::Immediate(0x0a0b_0c0d));
}

#[test]
fn record_with_unmatched_opcode_is_invalid() {
    let bytes = [0x18, 0, 0, 0, 0, 0, 0, 0, 0, 0, 0, 0];
    assert_eq!(NavigationCommand::from_bytes(&bytes), Err(RecordError::InvalidCommand));
    let bytes = [0x08, 0, 0x08, 0, 0, 0, 0, 0, 0, 0, 0, 0];
    assert_eq!(NavigationCommand::from_bytes(&bytes), Err(RecordError::InvalidCommand));
}

#[test]
fn record_round_trip_keeps_unused_bits() {
    let bytes = [0x21, 0x32, 0xf5, 0xe0, 0x80, 0x00, 0x10, 0x00, 0x00, 0x00, 0x20, 0x00];
    let c = NavigationCommand::from_bytes(&bytes).unwrap();
    assert_eq!(c.command, Command::Branch(Branch::CallObject));
    assert_eq!(c.operand_count, OperandCount::DestinationOnly);
    assert_eq!(c.destination, Operand::Unknown(0x1000));
    assert_eq!(c.source, Operand::Unknown(0x2000));
    assert_eq!(c.to_bytes(), bytes);
}

#[test]
fn every_decodable_first_word_round_trips() {
    for b0 in 0..=255u8 {
        for b1 in [0x00u8, 0x01, 0x45, 0x82, 0xc5, 0xff] {
            for b23 in [0x00u8, 0x01, 0x07, 0x09, 0x0f, 0x1f, 0xff] {
                let bytes = [b0, b1, b23, b23, 1, 2, 3, 4, 0x80, 0, 0, 0x13];
                if let Ok(c) = NavigationCommand::from_bytes(&bytes) {
                    assert_eq!(c.to_bytes(), bytes);
                    assert_eq!(NavigationCommand::from_bytes(&c.to_bytes()), Ok(c));
                }
            }
        }
    }
}

#[test]
fn built_command_has_the_canonical_record() {
    let c = NavigationCommand::new(
        Command::SetOp(SetOp::Move),
        OperandCount::DestinationAndSource,
        Operand::Gpr(5),
        Operand::Psr(20),
    );
    assert_eq!(c.to_bytes(), MOVE_GPR_PSR20);
    let c = NavigationCommand::new(
        Command::Branch(Branch::LinkMark),
        OperandCount::DestinationOnly,
        Operand::Immediate(0x0102_0304),
        Operand::Immediate(0),
    );
    assert_eq!(c.to_bytes(), [0x22, 0xc5, 0, 0, 1, 2, 3, 4, 0, 0, 0, 0]);
    let c = NavigationCommand::new(
        Command::Compare(Compare::Lt),
        OperandCount::DestinationAndSource,
        Operand::Unknown(200),
        Operand::Unknown(0x10_0000),
    );
    assert_eq!(c.to_bytes(), [0x48, 0x00, 0x07, 0, 0x80, 0, 0, 0xc8, 0x00, 0x10, 0, 0]);
}

#[test]
fn built_command_decodes_to_what_it_was_built_from() {
    let commands = [
        Command::Branch(Branch::Nop),
        Command::Branch(Branch::Resume),
        Command::Compare(Compare::Bc),
        Command::SetOp(SetOp::ShiftRight),
        Command::SetOp(SetOp::StillOff),
    ];
    let counts = [
        OperandCount::NoOperand,
        OperandCount::DestinationOnly,
        OperandCount::DestinationAndSource,
    ];
    let operands = [
        Operand::Immediate(0xffff_ffff),
        Operand::Gpr(4095),
        Operand::Psr(127),
        Operand::Unknown(128),
        Operand::Unknown(4096),
        Operand::Unknown(0x7fff_ffff),
    ];
    for command in commands {
        for count in counts {
            for destination in operands {
                for source in operands {
                    let c = NavigationCommand::new(command, count, destination, source);
                    let d = NavigationCommand::from_bytes(&c.to_bytes()).unwrap();
                    assert_eq!(d, c);
                    assert_eq!(d.command, command);
                    assert_eq!(d.operand_count, count);
                    assert_eq!(d.destination, destination);
                    assert_eq!(d.source, source);
                }
            }
        }
    }
}

#[test]
fn nop_is_the_zero_record() {
    let c = NavigationCommand::nop();
    assert_eq!(c.to_bytes(), [0u8; 12]);
    assert_eq!(c.command, Command::Branch(Branch::Nop));
    assert_eq!(c.operand_count, OperandCount::NoOperand);
    assert_eq!(NavigationCommand::from_bytes(&[0u8; 12]), Ok(c));
}

#[test]
fn immediate_source_changes_flag_and_source_bytes_only() {
    let c = NavigationCommand::from_bytes(&MOVE_GPR_PSR20).unwrap();
    let p = c.with_immediate_source(1);
    assert_eq!(
        p.to_bytes(),
        [0x50, 0x40, 0x00, 0x01, 0x00, 0x00, 0x00, 0x05, 0x00, 0x00, 0x00, 0x01]
    );
    assert_eq!(p.source, Operand::Immediate(1));
    assert_eq!(p.destination, Operand::Gpr(5));
    assert_eq!(p.command, c.command);
    assert_eq!(p.operand_count, c.operand_count);
    assert_eq!(NavigationCommand::from_bytes(&p.to_bytes()), Ok(p));
}

#[test]
fn example_container_round_trips() {
    let record = [0x20, 0x40, 0x00, 0x00, 0x00, 0x00, 0x00, 0x13, 0x00, 0x00, 0x00, 0x00];
    let mut data = header(1);
    data.extend_from_slice(&[0x00, 0x00, 0x00, 0x01]);
    data.extend_from_slice(&record);
    let c = BluRay::parse(&data).unwrap();
    assert_eq!(c.movie_objects.len(), 1);
    assert_eq!(c.movie_objects[0].flags, 0);
    assert_eq!(c.movie_objects[0].navigation_commands.len(), 1);
    let command = c.movie_objects[0].navigation_commands[0];
    assert_eq!(command.to_bytes(), record);
    assert_eq!(command.destination, Operand::Gpr(0x13));
    assert_eq!(command.source, Operand::Immediate(0));
    assert_eq!(c.serialize(), data);
}

#[test]
fn header_fields_are_kept() {
    let mut data = header(2);
    data.extend_from_slice(&[0xe0, 0x00, 0x00, 0x02]);
    data.extend_from_slice(&MOVE_GPR_PSR20);
    data.extend_from_slice(&[0u8; 12]);
    data.extend_from_slice(&[0x40, 0x01, 0x00, 0x00]);
    data.extend_from_slice(&[9, 8, 7]);
    let c = BluRay::parse(&data).unwrap();
    assert_eq!(c.extension_start_address, 0x100);
    assert_eq!(c.reserved, (0..28u8).map(|i| 0xa0 + i).collect::<Vec<u8>>());
    assert_eq!(c.movie_objects_length, 0x10);
    assert_eq!(c.movie_objects_reserved, vec![0xde, 0xad, 0xbe, 0xef]);
    assert_eq!(c.extension_data, vec![9, 8, 7]);
    assert_eq!(c.movie_objects.len(), 2);
    assert!(c.movie_objects[0].resume_intention());
    assert!(c.movie_objects[0].menu_call_mask());
    assert!(c.movie_objects[0].title_search_mask());
    assert!(!c.movie_objects[1].resume_intention());
    assert!(c.movie_objects[1].menu_call_mask());
    assert!(!c.movie_objects[1].title_search_mask());
    assert_eq!(c.movie_objects[1].flags, 0x4001);
    assert_eq!(c.movie_objects[1].navigation_commands.len(), 0);
    assert_eq!(c.serialize(), data);
}

#[test]
fn built_container_decodes_to_itself() {
    let c = BluRay {
        extension_start_address: 0x0102_0304,
        reserved: vec![7; 28],
        movie_objects_length: 44,
        movie_objects_reserved: vec![1, 2, 3, 4],
        movie_objects: vec![
            MovieObject {
                flags: 0x8000,
                navigation_commands: vec![
                    NavigationCommand::new(
                        Command::SetOp(SetOp::Add),
                        OperandCount::DestinationAndSource,
                        Operand::Gpr(1),
                        Operand::Immediate(2),
                    ),
                    NavigationCommand::nop(),
                ],
            },
            MovieObject { flags: 0, navigation_commands: vec![] },
            MovieObject {
                flags: 0x2000,
                navigation_commands: vec![NavigationCommand::new(
                    Command::Branch(Branch::JumpTitle),
                    OperandCount::DestinationOnly,
                    Operand::Immediate(3),
                    Operand::Gpr(0),
                )],
            },
        ],
        extension_data: vec![0xff, 0xee],
    };
    let bytes = c.serialize();
    assert_eq!(bytes.len(), 50 + 4 + 24 + 4 + 4 + 12 + 2);
    assert_eq!(&bytes[..8], b"MOBJ0200");
    assert_eq!(&bytes[8..12], &[1, 2, 3, 4]);
    assert_eq!(&bytes[40..44], &[0, 0, 0, 44]);
    assert_eq!(&bytes[48..50], &[0, 3]);
    assert_eq!(&bytes[50..54], &[0x80, 0x00, 0x00, 0x02]);
    assert_eq!(BluRay::parse(&bytes), Ok(c));
}

#[test]
fn bad_magic_reports_the_bytes_seen() {
    let mut data = header(0);
    data[..4].copy_from_slice(b"XXXX");
    assert_eq!(BluRay::parse(&data), Err(OpenError::BadMagicBytes(*b"XXXX0200")));
    assert_eq!(BluRay::parse(b"XXXX0200"), Err(OpenError::BadMagicBytes(*b"XXXX0200")));
    let mut long = b"XXXX0200".to_vec();
    long.extend_from_slice(&[0xff; 100]);
    assert_eq!(BluRay::parse(&long), Err(OpenError::BadMagicBytes(*b"XXXX0200")));
}

#[test]
fn truncated_header_errors() {
    let data = header(0);
    assert_eq!(BluRay::parse(&[]), Err(OpenError::NoMagicBytes));
    assert_eq!(BluRay::parse(&data[..7]), Err(OpenError::NoMagicBytes));
    assert_eq!(BluRay::parse(&data[..8]), Err(OpenError::NoExtensionStartAddress));
    assert_eq!(BluRay::parse(&data[..11]), Err(OpenError::NoExtensionStartAddress));
    assert_eq!(BluRay::parse(&data[..12]), Err(OpenError::NoReservedBytes));
    assert_eq!(BluRay::parse(&data[..39]), Err(OpenError::NoReservedBytes));
    assert_eq!(BluRay::parse(&data[..40]), Err(OpenError::MovieObjectsNoLength));
    assert_eq!(BluRay::parse(&data[..43]), Err(OpenError::MovieObjectsNoLength));
    assert_eq!(BluRay::parse(&data[..44]), Err(OpenError::MovieObjectsNoReservedBytes));
    assert_eq!(BluRay::parse(&data[..47]), Err(OpenError::MovieObjectsNoReservedBytes));
    assert_eq!(BluRay::parse(&data[..48]), Err(OpenError::MovieObjectsNoCount));
    assert_eq!(BluRay::parse(&data[..49]), Err(OpenError::MovieObjectsNoCount));
    assert!(BluRay::parse(&data).is_ok());
}

#[test]
fn truncated_table_errors() {
    let mut data = header(2);
    data.extend_from_slice(&[0x00, 0x00, 0x00, 0x01]);
    data.extend_from_slice(&[0u8; 12]);
    data.extend_from_slice(&[0x00, 0x00, 0x00, 0x02]);
    data.extend_from_slice(&[0u8; 12]);
    data.extend_from_slice(&[0u8; 12]);
    assert!(BluRay::parse(&data).is_ok());
    assert_eq!(BluRay::parse(&data[..50]), Err(OpenError::MovieObjectNoFlags));
    assert_eq!(BluRay::parse(&data[..51]), Err(OpenError::MovieObjectNoFlags));
    assert_eq!(BluRay::parse(&data[..52]), Err(OpenError::NavigationCommandsNoCount));
    assert_eq!(BluRay::parse(&data[..53]), Err(OpenError::NavigationCommandsNoCount));
    assert_eq!(BluRay::parse(&data[..54]), Err(OpenError::NavigationCommandTruncated(0, 0)));
    assert_eq!(BluRay::parse(&data[..65]), Err(OpenError::NavigationCommandTruncated(0, 0)));
    assert_eq!(BluRay::parse(&data[..66]), Err(OpenError::MovieObjectNoFlags));
    assert_eq!(BluRay::parse(&data[..69]), Err(OpenError::NavigationCommandsNoCount));
    assert_eq!(BluRay::parse(&data[..70]), Err(OpenError::NavigationCommandTruncated(1, 0)));
    assert_eq!(BluRay::parse(&data[..82]), Err(OpenError::NavigationCommandTruncated(1, 1)));
    assert_eq!(BluRay::parse(&data[..93]), Err(OpenError::NavigationCommandTruncated(1, 1)));
}

#[test]
fn invalid_records_are_reported_with_their_place() {
    let mut data = header(2);
    data.extend_from_slice(&[0x00, 0x00, 0x00, 0x00]);
    data.extend_from_slice(&[0x00, 0x00, 0x00, 0x02]);
    data.extend_from_slice(&[0u8; 12]);
    let bad = [0x18, 1, 2, 3, 4, 5, 6, 7, 8, 9, 10, 11];
    data.extend_from_slice(&bad);
    assert_eq!(BluRay::parse(&data), Err(OpenError::NavigationCommandInvalid(1, 1, bad)));
    let at = data.len() - 12;
    data[at] = 0xe0;
    assert_eq!(BluRay::parse(&data), Err(OpenError::NavigationCommandBadOperandCount(1, 1, 7)));
    data[at - 12] = 0x60;
    assert_eq!(BluRay::parse(&data), Err(OpenError::NavigationCommandBadOperandCount(1, 0, 3)));
}
