use bluray_nav::{
    parse_locator, region_check, BluRay, Branch, Command, MovieObject, NavigationCommand,
    NavigationCommandLocator, NavigationCommandLocatorParseError, Operand, OperandCount,
    RegionCheck, SetOp,
};

fn at(object: u16, command: u16) -> NavigationCommandLocator {
    NavigationCommandLocator { movie_object_index: object, navigation_command_index: command }
}

fn command(count: OperandCount, destination: Operand, source: Operand) -> NavigationCommand {
    NavigationCommand::new(Command::SetOp(SetOp::Move), count, destination, source)
}

fn container(length: u32) -> BluRay {
    BluRay {
        extension_start_address: 0,
        reserved: vec![0; 28],
        movie_objects_length: length,
        movie_objects_reserved: vec![0; 4],
        movie_objects: vec![
            MovieObject {
                flags: 0,
                navigation_commands: vec![NavigationCommand::nop(), NavigationCommand::nop()],
            },
            MovieObject { flags: 0, navigation_commands: vec![NavigationCommand::nop()] },
        ],
        extension_data: vec![1, 2, 3],
    }
}

#[test]
fn locator_is_two_numbers_around_a_comma() {
    assert_eq!(parse_locator("3,4"), Ok(at(3, 4)));
    assert_eq!(parse_locator("0,0"), Ok(at(0, 0)));
    assert_eq!(parse_locator("65535,65535"), Ok(at(65535, 65535)));
    assert_eq!(parse_locator("+12,0007"), Ok(at(12, 7)));
}

#[test]
fn locator_without_comma() {
    assert_eq!(parse_locator(""), Err(NavigationCommandLocatorParseError::MissingComma));
    assert_eq!(parse_locator("12"), Err(NavigationCommandLocatorParseError::MissingComma));
    assert_eq!(parse_locator("1;2"), Err(NavigationCommandLocatorParseError::MissingComma));
}

#[test]
fn locator_with_a_bad_first_index() {
    for bad in [",1", "x,1", "65536,1", "-1,1", " 1,1", "1 ,1", "+,1", "1_0,1", "x,y"] {
        assert!(matches!(
            parse_locator(bad),
            Err(NavigationCommandLocatorParseError::InvalidMovieObjectIndex(_))
        ));
    }
}

#[test]
fn locator_with_a_bad_second_index() {
    for bad in ["1,", "1,x", "1,65536", "1,-1", "1, 1", "1,2,3", "1,,", "1,+"] {
        assert!(matches!(
            parse_locator(bad),
            Err(NavigationCommandLocatorParseError::InvalidNavigationCommandIndex(_))
        ));
    }
}

#[test]
fn region_checks_are_found() {
    let both = OperandCount::DestinationAndSource;
    let reads = command(both, Operand::Gpr(1), Operand::Psr(20));
    assert_eq!(region_check(&reads), Some(RegionCheck::Reads));
    let reads = command(both, Operand::Psr(19), Operand::Psr(19));
    assert_eq!(region_check(&reads), Some(RegionCheck::Reads));
    let writes = command(both, Operand::Psr(19), Operand::Gpr(1));
    assert_eq!(region_check(&writes), Some(RegionCheck::Unexpected));
    let writes = command(OperandCount::DestinationOnly, Operand::Psr(20), Operand::Gpr(1));
    assert_eq!(region_check(&writes), Some(RegionCheck::Unexpected));
    let unused = command(OperandCount::DestinationOnly, Operand::Gpr(1), Operand::Psr(20));
    assert_eq!(region_check(&unused), None);
    let other = command(both, Operand::Psr(18), Operand::Psr(21));
    assert_eq!(region_check(&other), None);
    let constant = command(both, Operand::Gpr(19), Operand::Immediate(0x8000_0014));
    assert_eq!(region_check(&constant), None);
}

#[test]
fn well_formed_commands_hold_what_their_record_decodes_to() {
    let good = command(OperandCount::DestinationAndSource, Operand::Gpr(1), Operand::Psr(20));
    assert!(good.is_well_formed());
    let mut bad = good;
    bad.source = Operand::Psr(19);
    assert!(!bad.is_well_formed());
    let mut bad = good;
    bad.command = Command::Branch(Branch::Nop);
    assert!(!bad.is_well_formed());
    let mut bad = good;
    bad.raw_bytes[0] = 0xff;
    assert!(!bad.is_well_formed());
}

#[test]
fn well_formed_containers() {
    let good = container(44);
    assert!(good.is_well_formed());
    assert!(good.movie_objects[0].is_well_formed());
    let mut bad = container(44);
    bad.reserved.push(0);
    assert!(!bad.is_well_formed());
    let mut bad = container(44);
    bad.movie_objects_reserved.pop();
    assert!(!bad.is_well_formed());
    let mut bad = container(44);
    bad.movie_objects[1].navigation_commands[0].operand_count = OperandCount::DestinationOnly;
    assert!(!bad.is_well_formed());
    assert!(!bad.movie_objects[1].is_well_formed());
    assert!(bad.movie_objects[0].is_well_formed());
}

#[test]
fn table_length_is_four_bytes_and_twelve_per_command() {
    let c = container(44);
    assert_eq!(c.table_len(), 4 + 24 + 4 + 12);
    assert!(c.length_matches());
    assert!(!container(45).length_matches());
    assert_eq!(c.serialize().len(), 50 + 44 + 3);
    let empty = BluRay {
        extension_start_address: 0,
        reserved: vec![0; 28],
        movie_objects_length: 0,
        movie_objects_reserved: vec![0; 4],
        movie_objects: vec![],
        extension_data: vec![],
    };
    assert_eq!(empty.table_len(), 0);
    assert!(empty.length_matches());
}
