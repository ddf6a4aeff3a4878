//! The opcode map of the navigation-command bytecode: the three instruction
//! families, the operations of each, and the bit fields that select them.

use vstd::prelude::*;

verus! {

/// Operations of the branch family.
#[derive(Clone, Copy, Debug, PartialEq, Eq, Structural)]
pub enum Branch {
    Nop,
    GoTo,
    Break,
    JumpObject,
    JumpTitle,
    CallObject,
    CallTitle,
    Resume,
    PlayList,
    PlayItem,
    PlayMark,
    Terminate,
    LinkItem,
    LinkMark,
}

/// Operations of the compare family.
#[derive(Clone, Copy, Debug, PartialEq, Eq, Structural)]
pub enum Compare {
    Bc,
    Eq,
    Ne,
    Ge,
    Gt,
    Le,
    Lt,
}

/// Operations of the set family.
#[derive(Clone, Copy, Debug, PartialEq, Eq, Structural)]
pub enum SetOp {
    Move,
    Swap,
    Add,
    Sub,
    Mul,
    Div,
    Mod,
    Rnd,
    And,
    Or,
    Xor,
    Bitset,
    Bitclr,
    ShiftLeft,
    ShiftRight,
    SetStream,
    SetNVTimer,
    ButtonPage,
    EnableButton,
    DisableButton,
    SetSecondaryStream,
    PopupOff,
    StillOn,
    StillOff,
}

/// An operation together with the family it belongs to.
#[derive(Clone, Copy, Debug, PartialEq, Eq, Structural)]
pub enum Command {
    Branch(Branch),
    Compare(Compare),
    SetOp(SetOp),
}

/// The group number of the branch family.
pub const GROUP_BRANCH: u8 = 0;

/// The group number of the compare family.
pub const GROUP_COMPARE: u8 = 1;

/// The group number of the set family.
pub const GROUP_SET: u8 = 2;

/// The branch operation selected by a sub-group and a branch option, if any.
pub open spec fn branch_of(sub_group: u8, option: u8) -> Option<Branch> {
    if sub_group == 0 {
        if option == 0 {
            Some(Branch::Nop)
        } else if option == 1 {
            Some(Branch::GoTo)
        } else if option == 2 {
            Some(Branch::Break)
        } else {
            None
        }
    } else if sub_group == 1 {
        if option == 0 {
            Some(Branch::JumpObject)
        } else if option == 1 {
            Some(Branch::JumpTitle)
        } else if option == 2 {
            Some(Branch::CallObject)
        } else if option == 3 {
            Some(Branch::CallTitle)
        } else if option == 4 {
            Some(Branch::Resume)
        } else {
            None
        }
    } else if sub_group == 2 {
        if option == 0 {
            Some(Branch::PlayList)
        } else if option == 1 {
            Some(Branch::PlayItem)
        } else if option == 2 {
            Some(Branch::PlayMark)
        } else if option == 3 {
            Some(Branch::Terminate)
        } else if option == 4 {
            Some(Branch::LinkItem)
        } else if option == 5 {
            Some(Branch::LinkMark)
        } else {
            None
        }
    } else {
        None
    }
}

/// The compare operation selected by a compare option, if any. The sub-group
/// plays no part in this family.
pub open spec fn compare_of(option: u8) -> Option<Compare> {
    if option == 1 {
        Some(Compare::Bc)
    } else if option == 2 {
        Some(Compare::Eq)
    } else if option == 3 {
        Some(Compare::Ne)
    } else if option == 4 {
        Some(Compare::Ge)
    } else if option == 5 {
        Some(Compare::Gt)
    } else if option == 6 {
        Some(Compare::Le)
    } else if option == 7 {
        Some(Compare::Lt)
    } else {
        None
    }
}

/// The set operation selected by a sub-group and a set option, if any.
pub open spec fn set_of(sub_group: u8, option: u8) -> Option<SetOp> {
    if sub_group == 0 {
        if option == 0x1 {
            Some(SetOp::Move)
        } else if option == 0x2 {
            Some(SetOp::Swap)
        } else if option == 0x3 {
            Some(SetOp::Add)
        } else if option == 0x4 {
            Some(SetOp::Sub)
        } else if option == 0x5 {
            Some(SetOp::Mul)
        } else if option == 0x6 {
            Some(SetOp::Div)
        } else if option == 0x7 {
            Some(SetOp::Mod)
        } else if option == 0x8 {
            Some(SetOp::Rnd)
        } else if option == 0x9 {
            Some(SetOp::And)
        } else if option == 0xa {
            Some(SetOp::Or)
        } else if option == 0xb {
            Some(SetOp::Xor)
        } else if option == 0xc {
            Some(SetOp::Bitset)
        } else if option == 0xd {
            Some(SetOp::Bitclr)
        } else if option == 0xe {
            Some(SetOp::ShiftLeft)
        } else if option == 0xf {
            Some(SetOp::ShiftRight)
        } else {
            None
        }
    } else if sub_group == 1 {
        if option == 0x1 {
            Some(SetOp::SetStream)
        } else if option == 0x2 {
            Some(SetOp::SetNVTimer)
        } else if option == 0x3 {
            Some(SetOp::ButtonPage)
        } else if option == 0x4 {
            Some(SetOp::EnableButton)
        } else if option == 0x5 {
            Some(SetOp::DisableButton)
        } else if option == 0x6 {
            Some(SetOp::SetSecondaryStream)
        } else if option == 0x7 {
            Some(SetOp::PopupOff)
        } else if option == 0x8 {
            Some(SetOp::StillOn)
        } else if option == 0x9 {
            Some(SetOp::StillOff)
        } else {
            None
        }
    } else {
        None
    }
}

/// The operation that the five opcode fields of a record select, if any. Each
/// family reads its own option field and ignores those of the other two.
pub open spec fn command_of(
    group: u8,
    sub_group: u8,
    branch_option: u8,
    compare_option: u8,
    set_option: u8,
) -> Option<Command> {
    if group == GROUP_BRANCH {
        match branch_of(sub_group, branch_option) {
            Some(b) => Some(Command::Branch(b)),
            None => None,
        }
    } else if group == GROUP_COMPARE {
        match compare_of(compare_option) {
            Some(c) => Some(Command::Compare(c)),
            None => None,
        }
    } else if group == GROUP_SET {
        match set_of(sub_group, set_option) {
            Some(s) => Some(Command::SetOp(s)),
            None => None,
        }
    } else {
        None
    }
}

/// The five opcode fields as they are written for an operation: group,
/// sub-group, branch option, compare option, set option. Fields that the
/// operation's family ignores are written as zero.
#[derive(Clone, Copy, Debug, PartialEq, Eq, Structural)]
pub struct OpcodeFields {
    pub group: u8,
    pub sub_group: u8,
    pub branch_option: u8,
    pub compare_option: u8,
    pub set_option: u8,
}

impl Branch {
    /// Sub-group and branch option of this operation.
    pub open spec fn code(self) -> (u8, u8) {
        match self {
            Branch::Nop => (0, 0),
            Branch::GoTo => (0, 1),
            Branch::Break => (0, 2),
            Branch::JumpObject => (1, 0),
            Branch::JumpTitle => (1, 1),
            Branch::CallObject => (1, 2),
            Branch::CallTitle => (1, 3),
            Branch::Resume => (1, 4),
            Branch::PlayList => (2, 0),
            Branch::PlayItem => (2, 1),
            Branch::PlayMark => (2, 2),
            Branch::Terminate => (2, 3),
            Branch::LinkItem => (2, 4),
            Branch::LinkMark => (2, 5),
        }
    }
}

impl Compare {
    /// Compare option of this operation.
    pub open spec fn code(self) -> u8 {
        match self {
            Compare::Bc => 1,
            Compare::Eq => 2,
            Compare::Ne => 3,
            Compare::Ge => 4,
            Compare::Gt => 5,
            Compare::Le => 6,
            Compare::Lt => 7,
        }
    }
}

impl SetOp {
    /// Sub-group and set option of this operation.
    pub open spec fn code(self) -> (u8, u8) {
        match self {
            SetOp::Move => (0, 0x1),
            SetOp::Swap => (0, 0x2),
            SetOp::Add => (0, 0x3),
            SetOp::Sub => (0, 0x4),
            SetOp::Mul => (0, 0x5),
            SetOp::Div => (0, 0x6),
            SetOp::Mod => (0, 0x7),
            SetOp::Rnd => (0, 0x8),
            SetOp::And => (0, 0x9),
            SetOp::Or => (0, 0xa),
            SetOp::Xor => (0, 0xb),
            SetOp::Bitset => (0, 0xc),
            SetOp::Bitclr => (0, 0xd),
            SetOp::ShiftLeft => (0, 0xe),
            SetOp::ShiftRight => (0, 0xf),
            SetOp::SetStream => (1, 0x1),
            SetOp::SetNVTimer => (1, 0x2),
            SetOp::ButtonPage => (1, 0x3),
            SetOp::EnableButton => (1, 0x4),
            SetOp::DisableButton => (1, 0x5),
            SetOp::SetSecondaryStream => (1, 0x6),
            SetOp::PopupOff => (1, 0x7),
            SetOp::StillOn => (1, 0x8),
            SetOp::StillOff => (1, 0x9),
        }
    }
}

impl Command {
    /// The opcode fields that are written for this operation.
    pub open spec fn spec_fields(self) -> OpcodeFields {
        match self {
            Command::Branch(b) => OpcodeFields {
                group: GROUP_BRANCH,
                sub_group: b.code().0,
                branch_option: b.code().1,
                compare_option: 0,
                set_option: 0,
            },
            Command::Compare(c) => OpcodeFields {
                group: GROUP_COMPARE,
                sub_group: 0,
                branch_option: 0,
                compare_option: c.code(),
                set_option: 0,
            },
            Command::SetOp(s) => OpcodeFields {
                group: GROUP_SET,
                sub_group: s.code().0,
                branch_option: 0,
                compare_option: 0,
                set_option: s.code().1,
            },
        }
    }

    /// Whether the five fields select this operation: the family's group, and
    /// the fields that the family reads, are those of the operation.
    pub open spec fn selected_by(
        self,
        group: u8,
        sub_group: u8,
        branch_option: u8,
        compare_option: u8,
        set_option: u8,
    ) -> bool {
        match self {
            Command::Branch(b) => group == GROUP_BRANCH && (sub_group, branch_option) == b.code(),
            Command::Compare(c) => group == GROUP_COMPARE && compare_option == c.code(),
            Command::SetOp(s) => group == GROUP_SET && (sub_group, set_option) == s.code(),
        }
    }

    /// The opcode fields to write for this operation.
    pub fn fields(&self) -> (r: OpcodeFields)
        ensures
            r == self.spec_fields(),
            r.group <= 2,
            r.sub_group <= 2,
            r.branch_option <= 5,
            r.compare_option <= 7,
            r.set_option <= 15,
    {
        match self {
            Command::Branch(b) => {
                let (sub_group, branch_option): (u8, u8) = match b {
                    Branch::Nop => (0, 0),
                    Branch::GoTo => (0, 1),
                    Branch::Break => (0, 2),
                    Branch::JumpObject => (1, 0),
                    Branch::JumpTitle => (1, 1),
                    Branch::CallObject => (1, 2),
                    Branch::CallTitle => (1, 3),
                    Branch::Resume => (1, 4),
                    Branch::PlayList => (2, 0),
                    Branch::PlayItem => (2, 1),
                    Branch::PlayMark => (2, 2),
                    Branch::Terminate => (2, 3),
                    Branch::LinkItem => (2, 4),
                    Branch::LinkMark => (2, 5),
                };
                OpcodeFields {
                    group: GROUP_BRANCH,
                    sub_group,
                    branch_option,
                    compare_option: 0,
                    set_option: 0,
                }
            },
            Command::Compare(c) => {
                let compare_option: u8 = match c {
                    Compare::Bc => 1,
                    Compare::Eq => 2,
                    Compare::Ne => 3,
                    Compare::Ge => 4,
                    Compare::Gt => 5,
                    Compare::Le => 6,
                    Compare::Lt => 7,
                };
                OpcodeFields {
                    group: GROUP_COMPARE,
                    sub_group: 0,
                    branch_option: 0,
                    compare_option,
                    set_option: 0,
                }
            },
            Command::SetOp(s) => {
                let (sub_group, set_option): (u8, u8) = match s {
                    SetOp::Move => (0, 0x1),
                    SetOp::Swap => (0, 0x2),
                    SetOp::Add => (0, 0x3),
                    SetOp::Sub => (0, 0x4),
                    SetOp::Mul => (0, 0x5),
                    SetOp::Div => (0, 0x6),
                    SetOp::Mod => (0, 0x7),
                    SetOp::Rnd => (0, 0x8),
                    SetOp::And => (0, 0x9),
                    SetOp::Or => (0, 0xa),
                    SetOp::Xor => (0, 0xb),
                    SetOp::Bitset => (0, 0xc),
                    SetOp::Bitclr => (0, 0xd),
                    SetOp::ShiftLeft => (0, 0xe),
                    SetOp::ShiftRight => (0, 0xf),
                    SetOp::SetStream => (1, 0x1),
                    SetOp::SetNVTimer => (1, 0x2),
                    SetOp::ButtonPage => (1, 0x3),
                    SetOp::EnableButton => (1, 0x4),
                    SetOp::DisableButton => (1, 0x5),
                    SetOp::SetSecondaryStream => (1, 0x6),
                    SetOp::PopupOff => (1, 0x7),
                    SetOp::StillOn => (1, 0x8),
                    SetOp::StillOff => (1, 0x9),
                };
                OpcodeFields {
                    group: GROUP_SET,
                    sub_group,
                    branch_option: 0,
                    compare_option: 0,
                    set_option,
                }
            },
        }
    }
}

/// Looks the five opcode fields up in the opcode map.
///
/// Returns the operation they select; `None` where the map has no entry for
/// them. An operation is returned exactly when the fields select it.
pub fn decode_command(
    command_group: u8,
    command_sub_group: u8,
    branch_option: u8,
    compare_option: u8,
    set_option: u8,
) -> (r: Option<Command>)
    ensures
        r == command_of(
            command_group,
            command_sub_group,
            branch_option,
            compare_option,
            set_option,
        ),
        forall|c: Command|
            r == Some(c) <==> #[trigger] c.selected_by(
                command_group,
                command_sub_group,
                branch_option,
                compare_option,
                set_option,
            ),
{
    proof {
        lemma_command_of_selects(
            command_group,
            command_sub_group,
            branch_option,
            compare_option,
            set_option,
        );
    }
    match (command_group, command_sub_group, branch_option, compare_option, set_option) {
        (0, 0, 0, _, _) => Some(Command::Branch(Branch::Nop)),
        (0, 0, 1, _, _) => Some(Command::Branch(Branch::GoTo)),
        (0, 0, 2, _, _) => Some(Command::Branch(Branch::Break)),
        (0, 1, 0, _, _) => Some(Command::Branch(Branch::JumpObject)),
        (0, 1, 1, _, _) => Some(Command::Branch(Branch::JumpTitle)),
        (0, 1, 2, _, _) => Some(Command::Branch(Branch::CallObject)),
        (0, 1, 3, _, _) => Some(Command::Branch(Branch::CallTitle)),
        (0, 1, 4, _, _) => Some(Command::Branch(Branch::Resume)),
        (0, 2, 0, _, _) => Some(Command::Branch(Branch::PlayList)),
        (0, 2, 1, _, _) => Some(Command::Branch(Branch::PlayItem)),
        (0, 2, 2, _, _) => Some(Command::Branch(Branch::PlayMark)),
        (0, 2, 3, _, _) => Some(Command::Branch(Branch::Terminate)),
        (0, 2, 4, _, _) => Some(Command::Branch(Branch::LinkItem)),
        (0, 2, 5, _, _) => Some(Command::Branch(Branch::LinkMark)),
        (1, _, _, 1, _) => Some(Command::Compare(Compare::Bc)),
        (1, _, _, 2, _) => Some(Command::Compare(Compare::Eq)),
        (1, _, _, 3, _) => Some(Command::Compare(Compare::Ne)),
        (1, _, _, 4, _) => Some(Command::Compare(Compare::Ge)),
        (1, _, _, 5, _) => Some(Command::Compare(Compare::Gt)),
        (1, _, _, 6, _) => Some(Command::Compare(Compare::Le)),
        (1, _, _, 7, _) => Some(Command::Compare(Compare::Lt)),
        (2, 0, _, _, 0x1) => Some(Command::SetOp(SetOp::Move)),
        (2, 0, _, _, 0x2) => Some(Command::SetOp(SetOp::Swap)),
        (2, 0, _, _, 0x3) => Some(Command::SetOp(SetOp::Add)),
        (2, 0, _, _, 0x4) => Some(Command::SetOp(SetOp::Sub)),
        (2, 0, _, _, 0x5) => Some(Command::SetOp(SetOp::Mul)),
        (2, 0, _, _, 0x6) => Some(Command::SetOp(SetOp::Div)),
        (2, 0, _, _, 0x7) => Some(Command::SetOp(SetOp::Mod)),
        (2, 0, _, _, 0x8) => Some(Command::SetOp(SetOp::Rnd)),
        (2, 0, _, _, 0x9) => Some(Command::SetOp(SetOp::And)),
        (2, 0, _, _, 0xa) => Some(Command::SetOp(SetOp::Or)),
        (2, 0, _, _, 0xb) => Some(Command::SetOp(SetOp::Xor)),
        (2, 0, _, _, 0xc) => Some(Command::SetOp(SetOp::Bitset)),
        (2, 0, _, _, 0xd) => Some(Command::SetOp(SetOp::Bitclr)),
        (2, 0, _, _, 0xe) => Some(Command::SetOp(SetOp::ShiftLeft)),
        (2, 0, _, _, 0xf) => Some(Command::SetOp(SetOp::ShiftRight)),
        (2, 1, _, _, 0x1) => Some(Command::SetOp(SetOp::SetStream)),
        (2, 1, _, _, 0x2) => Some(Command::SetOp(SetOp::SetNVTimer)),
        (2, 1, _, _, 0x3) => Some(Command::SetOp(SetOp::ButtonPage)),
        (2, 1, _, _, 0x4) => Some(Command::SetOp(SetOp::EnableButton)),
        (2, 1, _, _, 0x5) => Some(Command::SetOp(SetOp::DisableButton)),
        (2, 1, _, _, 0x6) => Some(Command::SetOp(SetOp::SetSecondaryStream)),
        (2, 1, _, _, 0x7) => Some(Command::SetOp(SetOp::PopupOff)),
        (2, 1, _, _, 0x8) => Some(Command::SetOp(SetOp::StillOn)),
        (2, 1, _, _, 0x9) => Some(Command::SetOp(SetOp::StillOff)),
        _ => None,
    }
}

/// The opcode map returns an operation exactly for the fields that select it:
/// the map and the per-operation codes are inverse to each other.
pub proof fn lemma_command_of_selects(
    group: u8,
    sub_group: u8,
    branch_option: u8,
    compare_option: u8,
    set_option: u8,
)
    ensures
        forall|c: Command|
            command_of(group, sub_group, branch_option, compare_option, set_option) == Some(c)
                <==> #[trigger] c.selected_by(
                group,
                sub_group,
                branch_option,
                compare_option,
                set_option,
            ),
{
}

/// Looking up the fields written for an operation gives that operation back.
pub proof fn lemma_fields_round_trip(c: Command)
    ensures
        command_of(
            c.spec_fields().group,
            c.spec_fields().sub_group,
            c.spec_fields().branch_option,
            c.spec_fields().compare_option,
            c.spec_fields().set_option,
        ) == Some(c),
{
}

} // verus!
