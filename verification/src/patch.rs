//! The patch engine: replacing commands by the no-op, and making reads of a
//! player-specific register return a fixed constant.

use vstd::prelude::*;
use crate::bytes::{be32, copy_range};
use crate::container::{BluRay, BluRayView, MovieObject, MovieObjectView};
use crate::opcode::{Branch, Command};
use crate::operand::{arity_of, operand_of, Operand, OperandCount};
use crate::record::{
    arity_bits,
    immediate_source_record,
    nop_record,
    source_flag,
    NavigationCommand,
};

verus! {

/// The place of a command: the index of its movie object, and its index
/// among that object's commands, both from 0.
#[derive(Clone, Copy, Debug, PartialEq, Eq, Hash, Structural)]
pub struct NavigationCommandLocator {
    pub movie_object_index: u16,
    pub navigation_command_index: u16,
}

/// A player-specific register and the constant to read in its place.
#[derive(Clone, Copy, Debug, PartialEq, Eq, Structural)]
pub struct RegisterOverride {
    pub register: u8,
    pub value: u32,
}

/// Whether the place (object, command) is among the given ones.
pub open spec fn is_nop_target(
    nops: Seq<NavigationCommandLocator>,
    object: int,
    command: int,
) -> bool {
    exists|k: int|
        0 <= k < nops.len() && (#[trigger] nops[k]).movie_object_index == object
            && nops[k].navigation_command_index == command
}

/// The constant that stands in for a register: that of the first override
/// that names it, if any.
pub open spec fn override_for(overrides: Seq<RegisterOverride>, register: u8) -> Option<u32>
    decreases overrides.len(),
{
    if overrides.len() == 0 {
        None
    } else if overrides[0].register == register {
        Some(overrides[0].value)
    } else {
        override_for(overrides.skip(1), register)
    }
}

/// The player-specific register that a record reads as its source: it has a
/// destination and a source, and the source is such a register.
pub open spec fn source_register(raw: Seq<u8>) -> Option<u8> {
    match operand_of(source_flag(raw), be32(raw, 8)) {
        Operand::Psr(n) => if arity_of(arity_bits(raw)) == Some(
            OperandCount::DestinationAndSource,
        ) {
            Some(n)
        } else {
            None
        },
        _ => None,
    }
}

/// The constant that the overrides put in place of a record's source, if any.
pub open spec fn source_override(raw: Seq<u8>, overrides: Seq<RegisterOverride>) -> Option<u32> {
    match source_register(raw) {
        Some(register) => override_for(overrides, register),
        None => None,
    }
}

/// A record after patching: the no-op where its place is a target; with an
/// immediate source where it reads an overridden register; else as it was.
pub open spec fn patched_record(raw: Seq<u8>, nop: bool, overrides: Seq<RegisterOverride>) -> Seq<
    u8,
> {
    if nop {
        nop_record()
    } else {
        match source_override(raw, overrides) {
            Some(value) => immediate_source_record(raw, value),
            None => raw,
        }
    }
}

/// A movie object after patching: the same flag word and as many records,
/// each patched in its place.
pub open spec fn patched_object(
    o: MovieObjectView,
    index: int,
    nops: Seq<NavigationCommandLocator>,
    overrides: Seq<RegisterOverride>,
) -> MovieObjectView {
    MovieObjectView {
        flags: o.flags,
        commands: Seq::new(
            o.commands.len(),
            |j: int| patched_record(o.commands[j], is_nop_target(nops, index, j), overrides),
        ),
    }
}

/// A container after patching: the same header and trailing bytes and as
/// many movie objects, each patched in its place.
pub open spec fn patched_container(
    c: BluRayView,
    nops: Seq<NavigationCommandLocator>,
    overrides: Seq<RegisterOverride>,
) -> BluRayView {
    BluRayView {
        extension_start_address: c.extension_start_address,
        reserved: c.reserved,
        movie_objects_length: c.movie_objects_length,
        movie_objects_reserved: c.movie_objects_reserved,
        movie_objects: Seq::new(
            c.movie_objects.len(),
            |i: int| patched_object(c.movie_objects[i], i, nops, overrides),
        ),
        extension_data: c.extension_data,
    }
}

/// Whether the place (object, command) is among the given ones.
pub fn is_nop_patched(nops: &Vec<NavigationCommandLocator>, object: u16, command: u16) -> (r: bool)
    ensures
        r == is_nop_target(nops@, object as int, command as int),
{
    let mut k: usize = 0;
    while k < nops.len()
        invariant
            k <= nops@.len(),
            forall|m: int|
                0 <= m < k ==> !((#[trigger] nops@[m]).movie_object_index == object
                    && nops@[m].navigation_command_index == command),
        decreases nops@.len() - k,
    {
        if nops[k].movie_object_index == object && nops[k].navigation_command_index == command {
            return true;
        }
        k += 1;
    }
    false
}

/// The constant that stands in for a register: that of the first override
/// that names it, if any.
pub fn find_override(overrides: &Vec<RegisterOverride>, register: u8) -> (r: Option<u32>)
    ensures
        r == override_for(overrides@, register),
{
    let mut k: usize = 0;
    assert(overrides@.skip(0) =~= overrides@);
    while k < overrides.len()
        invariant
            k <= overrides@.len(),
            override_for(overrides@, register) == override_for(overrides@.skip(k as int), register),
        decreases overrides@.len() - k,
    {
        assert(overrides@.skip(k as int).skip(1) =~= overrides@.skip(k + 1));
        if overrides[k].register == register {
            return Some(overrides[k].value);
        }
        k += 1;
    }
    None
}

/// Patches one command: the no-op if `nop` is set; else, if the command has
/// both operands and reads an overridden player-specific register as its
/// source, the same command with the constant as its source; else the command
/// as it is.
pub fn patch_command(
    command: &NavigationCommand,
    nop: bool,
    overrides: &Vec<RegisterOverride>,
) -> (r: NavigationCommand)
    requires
        command.wf(),
    ensures
        r.wf(),
        r.raw_bytes@ == patched_record(command.raw_bytes@, nop, overrides@),
        nop ==> r.command == Command::Branch(Branch::Nop) && r.operand_count
            == OperandCount::NoOperand,
        !nop ==> r.command == command.command && r.operand_count == command.operand_count
            && r.destination == command.destination,
        !nop && source_override(command.raw_bytes@, overrides@) is None ==> r == *command,
        !nop && source_override(command.raw_bytes@, overrides@) is Some ==> r.source
            == Operand::Immediate(source_override(command.raw_bytes@, overrides@)->Some_0),
{
    if nop {
        return NavigationCommand::nop();
    }
    match (command.operand_count, command.source) {
        (OperandCount::DestinationAndSource, Operand::Psr(register)) => {
            match find_override(overrides, register) {
                Some(value) => command.with_immediate_source(value),
                None => *command,
            }
        },
        _ => *command,
    }
}

impl MovieObject {
    /// This movie object, at place `index` of its container, with every
    /// command patched.
    pub fn patched(
        &self,
        index: u16,
        nops: &Vec<NavigationCommandLocator>,
        overrides: &Vec<RegisterOverride>,
    ) -> (r: MovieObject)
        requires
            self.wf(),
        ensures
            r.wf(),
            r@ == patched_object(self@, index as int, nops@, overrides@),
            r.navigation_commands@.len() == self.navigation_commands@.len(),
    {
        let n: usize = self.navigation_commands.len();
        let mut navigation_commands: Vec<NavigationCommand> = Vec::new();
        let mut j: usize = 0;
        while j < n
            invariant
                j <= n,
                n == self.navigation_commands@.len(),
                self.wf(),
                navigation_commands@.len() == j,
                forall|k: int|
                    0 <= k < j ==> (#[trigger] navigation_commands@[k]).wf()
                        && navigation_commands@[k].raw_bytes@ == patched_record(
                        self.navigation_commands@[k].raw_bytes@,
                        is_nop_target(nops@, index as int, k),
                        overrides@,
                    ),
            decreases n - j,
        {
            let nop = is_nop_patched(nops, index, j as u16);
            let command = patch_command(&self.navigation_commands[j], nop, overrides);
            navigation_commands.push(command);
            j += 1;
        }
        let r = MovieObject { flags: self.flags, navigation_commands };
        proof {
            assert(r@.commands =~= patched_object(
                self@,
                index as int,
                nops@,
                overrides@,
            ).commands);
        }
        r
    }
}

impl BluRay {
    /// A new container with the edits applied; this one is left as it is.
    ///
    /// Every command whose place is in `nops` becomes the no-op. Of the
    /// others, each that has both operands and reads as its source a
    /// player-specific register named in `overrides` gets the constant of the
    /// first such override as an immediate source. All else, header and
    /// trailing bytes included, is kept, so the encoded length stays.
    pub fn patched(
        &self,
        nops: &Vec<NavigationCommandLocator>,
        overrides: &Vec<RegisterOverride>,
    ) -> (r: BluRay)
        requires
            self.wf(),
        ensures
            r.wf(),
            r@ == patched_container(self@, nops@, overrides@),
    {
        let n: usize = self.movie_objects.len();
        let mut movie_objects: Vec<MovieObject> = Vec::new();
        let mut i: usize = 0;
        while i < n
            invariant
                i <= n,
                n == self.movie_objects@.len(),
                self.wf(),
                movie_objects@.len() == i,
                forall|k: int|
                    0 <= k < i ==> (#[trigger] movie_objects@[k]).wf() && movie_objects@[k]@
                        == patched_object(self.movie_objects@[k]@, k, nops@, overrides@),
            decreases n - i,
        {
            let object = self.movie_objects[i].patched(i as u16, nops, overrides);
            movie_objects.push(object);
            i += 1;
        }
        let reserved = copy_range(self.reserved.as_slice(), 0, self.reserved.len());
        let movie_objects_reserved = copy_range(
            self.movie_objects_reserved.as_slice(),
            0,
            self.movie_objects_reserved.len(),
        );
        let extension_data = copy_range(
            self.extension_data.as_slice(),
            0,
            self.extension_data.len(),
        );
        let r = BluRay {
            extension_start_address: self.extension_start_address,
            reserved,
            movie_objects_length: self.movie_objects_length,
            movie_objects_reserved,
            movie_objects,
            extension_data,
        };
        proof {
            assert(r.reserved@ =~= self.reserved@);
            assert(r.movie_objects_reserved@ =~= self.movie_objects_reserved@);
            assert(r.extension_data@ =~= self.extension_data@);
            assert(r@.movie_objects =~= patched_container(self@, nops@, overrides@).movie_objects);
        }
        r
    }

    /// Applies the edits and encodes the result.
    pub fn patch(
        &self,
        nops: &Vec<NavigationCommandLocator>,
        overrides: &Vec<RegisterOverride>,
    ) -> (r: Vec<u8>)
        requires
            self.wf(),
        ensures
            r@ == crate::container::container_bytes(
                patched_container(self@, nops@, overrides@),
            ),
    {
        self.patched(nops, overrides).serialize()
    }
}

} // verus!
