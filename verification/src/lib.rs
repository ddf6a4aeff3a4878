//! Codec for the navigation-command table of a disc's movie-object file:
//! decoding the container and its 96-bit command records, encoding them back
//! byte for byte, and patching records in between.

pub mod args;
pub mod bytes;
pub mod container;
pub mod inspect;
pub mod laws;
pub mod opcode;
pub mod operand;
pub mod patch;
pub mod record;

pub use args::{
    country_override, parse_country, parse_locator, NavigationCommandLocatorParseError, Region,
};
pub use container::{BluRay, MovieObject, OpenError};
pub use inspect::{region_check, RegionCheck};
pub use opcode::{decode_command, Branch, Command, Compare, OpcodeFields, SetOp};
pub use operand::{Operand, OperandCount};
pub use patch::{NavigationCommandLocator, RegisterOverride};
pub use record::{NavigationCommand, RecordError};
