//! The movie-object container: a fixed header, a table of movie objects each
//! with its navigation commands, and whatever follows the table.

use vstd::prelude::*;
use crate::bytes::{
    be16,
    be16_bytes,
    be32,
    be32_bytes,
    copy_range,
    push_all,
    push_be16,
    push_be32,
    read_be16,
    read_be32,
};
use crate::record::{record_error, NavigationCommand, RecordError};

verus! {

/// The signature that the container starts with: `MOBJ0200`.
pub open spec fn magic() -> Seq<u8> {
    seq![0x4du8, 0x4fu8, 0x42u8, 0x4au8, 0x30u8, 0x32u8, 0x30u8, 0x30u8]
}

/// Why a buffer is no movie-object container.
#[derive(Clone, Copy, Debug, PartialEq, Eq)]
pub enum OpenError {
    /// Fewer than 8 bytes.
    NoMagicBytes,
    /// The first 8 bytes, which it holds, are not the signature.
    BadMagicBytes([u8; 8]),
    /// The buffer ends within the extension start address.
    NoExtensionStartAddress,
    /// The buffer ends within the 28 reserved bytes.
    NoReservedBytes,
    /// The buffer ends within the length of the table.
    MovieObjectsNoLength,
    /// The buffer ends within the 4 reserved bytes of the table.
    MovieObjectsNoReservedBytes,
    /// The buffer ends within the count of movie objects.
    MovieObjectsNoCount,
    /// The buffer ends within a movie object's flag word.
    MovieObjectNoFlags,
    /// The buffer ends within a movie object's command count.
    NavigationCommandsNoCount,
    /// The buffer ends within the record of the command at (object, command).
    NavigationCommandTruncated(u16, u16),
    /// The opcode fields of the record at (object, command), which it holds,
    /// select no operation.
    NavigationCommandInvalid(u16, u16, [u8; 12]),
    /// The arity code of the record at (object, command), which it holds, is
    /// none of 0, 1 and 2.
    NavigationCommandBadOperandCount(u16, u16, u8),
}

/// An `OpenError` with the bytes it holds as sequences.
pub enum OpenErrorView {
    NoMagicBytes,
    BadMagicBytes(Seq<u8>),
    NoExtensionStartAddress,
    NoReservedBytes,
    MovieObjectsNoLength,
    MovieObjectsNoReservedBytes,
    MovieObjectsNoCount,
    MovieObjectNoFlags,
    NavigationCommandsNoCount,
    NavigationCommandTruncated(u16, u16),
    NavigationCommandInvalid(u16, u16, Seq<u8>),
    NavigationCommandBadOperandCount(u16, u16, u8),
}

impl View for OpenError {
    type V = OpenErrorView;

    open spec fn view(&self) -> OpenErrorView {
        match *self {
            OpenError::NoMagicBytes => OpenErrorView::NoMagicBytes,
            OpenError::BadMagicBytes(b) => OpenErrorView::BadMagicBytes(b@),
            OpenError::NoExtensionStartAddress => OpenErrorView::NoExtensionStartAddress,
            OpenError::NoReservedBytes => OpenErrorView::NoReservedBytes,
            OpenError::MovieObjectsNoLength => OpenErrorView::MovieObjectsNoLength,
            OpenError::MovieObjectsNoReservedBytes => OpenErrorView::MovieObjectsNoReservedBytes,
            OpenError::MovieObjectsNoCount => OpenErrorView::MovieObjectsNoCount,
            OpenError::MovieObjectNoFlags => OpenErrorView::MovieObjectNoFlags,
            OpenError::NavigationCommandsNoCount => OpenErrorView::NavigationCommandsNoCount,
            OpenError::NavigationCommandTruncated(o, c) => {
                OpenErrorView::NavigationCommandTruncated(o, c)
            },
            OpenError::NavigationCommandInvalid(o, c, b) => {
                OpenErrorView::NavigationCommandInvalid(o, c, b@)
            },
            OpenError::NavigationCommandBadOperandCount(o, c, code) => {
                OpenErrorView::NavigationCommandBadOperandCount(o, c, code)
            },
        }
    }
}

/// One movie object: its flag word and its navigation commands.
#[derive(Clone, Debug, PartialEq, Eq)]
pub struct MovieObject {
    /// The flag word as read; its top three bits are the flags.
    pub flags: u16,
    pub navigation_commands: Vec<NavigationCommand>,
}

/// A movie object as its flag word and the records of its commands.
pub struct MovieObjectView {
    pub flags: u16,
    pub commands: Seq<Seq<u8>>,
}

/// The whole container.
#[derive(Clone, Debug, PartialEq, Eq)]
pub struct BluRay {
    /// The extension start address; it may be zero and is not interpreted.
    pub extension_start_address: u32,
    /// The 28 reserved bytes of the header, kept as read.
    pub reserved: Vec<u8>,
    /// The length of the table as the header states it.
    pub movie_objects_length: u32,
    /// The 4 reserved bytes before the object count, kept as read.
    pub movie_objects_reserved: Vec<u8>,
    pub movie_objects: Vec<MovieObject>,
    /// What follows the last movie object, kept as read.
    pub extension_data: Vec<u8>,
}

/// A container as plain values.
pub struct BluRayView {
    pub extension_start_address: u32,
    pub reserved: Seq<u8>,
    pub movie_objects_length: u32,
    pub movie_objects_reserved: Seq<u8>,
    pub movie_objects: Seq<MovieObjectView>,
    pub extension_data: Seq<u8>,
}

/// The records of a run of commands.
pub open spec fn records_of(commands: Seq<NavigationCommand>) -> Seq<Seq<u8>> {
    Seq::new(commands.len(), |i: int| commands[i].raw_bytes@)
}

/// The views of a run of movie objects.
pub open spec fn views_of(objects: Seq<MovieObject>) -> Seq<MovieObjectView> {
    Seq::new(objects.len(), |i: int| objects[i]@)
}

impl View for MovieObject {
    type V = MovieObjectView;

    open spec fn view(&self) -> MovieObjectView {
        MovieObjectView { flags: self.flags, commands: records_of(self.navigation_commands@) }
    }
}

impl View for BluRay {
    type V = BluRayView;

    open spec fn view(&self) -> BluRayView {
        BluRayView {
            extension_start_address: self.extension_start_address,
            reserved: self.reserved@,
            movie_objects_length: self.movie_objects_length,
            movie_objects_reserved: self.movie_objects_reserved@,
            movie_objects: views_of(self.movie_objects@),
            extension_data: self.extension_data@,
        }
    }
}

impl MovieObjectView {
    /// Every record is a navigation command, and their number fits the
    /// 16-bit count.
    pub open spec fn valid(self) -> bool {
        &&& self.commands.len() <= 0xffff
        &&& forall|i: int|
            0 <= i < self.commands.len() ==> (#[trigger] self.commands[i]).len() == 12
                && record_error(self.commands[i]) is None
    }
}

impl BluRayView {
    /// The reserved runs have their lengths, every movie object is valid, and
    /// their number fits the 16-bit count.
    pub open spec fn valid(self) -> bool {
        &&& self.reserved.len() == 28
        &&& self.movie_objects_reserved.len() == 4
        &&& self.movie_objects.len() <= 0xffff
        &&& forall|i: int|
            0 <= i < self.movie_objects.len() ==> (#[trigger] self.movie_objects[i]).valid()
    }
}

/// Reading the first `count` records of movie object `object` from `start`:
/// the records and the position after them, or the first failure. A record
/// that ends beyond the buffer is truncated; one that is complete is judged
/// as a navigation command.
pub open spec fn parse_commands(s: Seq<u8>, start: int, object: u16, count: nat) -> Result<
    (Seq<Seq<u8>>, int),
    OpenErrorView,
>
    decreases count,
{
    if count == 0 {
        Ok((Seq::empty(), start))
    } else {
        match parse_commands(s, start, object, (count - 1) as nat) {
            Err(e) => Err(e),
            Ok((records, pos)) => {
                let index = (count - 1) as u16;
                let record = s.subrange(pos, pos + 12);
                if s.len() < pos + 12 {
                    Err(OpenErrorView::NavigationCommandTruncated(object, index))
                } else {
                    match record_error(record) {
                        Some(RecordError::BadOperandCount(code)) => Err(
                            OpenErrorView::NavigationCommandBadOperandCount(object, index, code),
                        ),
                        Some(RecordError::InvalidCommand) => Err(
                            OpenErrorView::NavigationCommandInvalid(object, index, record),
                        ),
                        None => Ok((records.push(record), pos + 12)),
                    }
                }
            },
        }
    }
}

/// Reading the first `count` movie objects from `start`: the objects and the
/// position after them, or the first failure.
pub open spec fn parse_objects(s: Seq<u8>, start: int, count: nat) -> Result<
    (Seq<MovieObjectView>, int),
    OpenErrorView,
>
    decreases count,
{
    if count == 0 {
        Ok((Seq::empty(), start))
    } else {
        match parse_objects(s, start, (count - 1) as nat) {
            Err(e) => Err(e),
            Ok((objects, pos)) => {
                if s.len() < pos + 2 {
                    Err(OpenErrorView::MovieObjectNoFlags)
                } else if s.len() < pos + 4 {
                    Err(OpenErrorView::NavigationCommandsNoCount)
                } else {
                    match parse_commands(
                        s,
                        pos + 4,
                        (count - 1) as u16,
                        be16(s, pos + 2) as nat,
                    ) {
                        Err(e) => Err(e),
                        Ok((records, end)) => Ok(
                            (
                                objects.push(
                                    MovieObjectView { flags: be16(s, pos), commands: records },
                                ),
                                end,
                            ),
                        ),
                    }
                }
            },
        }
    }
}

/// Reading a whole container, or the first failure. The header is checked
/// field by field in the order of the layout; nothing after a wrong signature
/// is looked at.
pub open spec fn parse_container(s: Seq<u8>) -> Result<BluRayView, OpenErrorView> {
    if s.len() < 8 {
        Err(OpenErrorView::NoMagicBytes)
    } else if s.subrange(0, 8) != magic() {
        Err(OpenErrorView::BadMagicBytes(s.subrange(0, 8)))
    } else if s.len() < 12 {
        Err(OpenErrorView::NoExtensionStartAddress)
    } else if s.len() < 40 {
        Err(OpenErrorView::NoReservedBytes)
    } else if s.len() < 44 {
        Err(OpenErrorView::MovieObjectsNoLength)
    } else if s.len() < 48 {
        Err(OpenErrorView::MovieObjectsNoReservedBytes)
    } else if s.len() < 50 {
        Err(OpenErrorView::MovieObjectsNoCount)
    } else {
        match parse_objects(s, 50, be16(s, 48) as nat) {
            Err(e) => Err(e),
            Ok((objects, end)) => Ok(
                BluRayView {
                    extension_start_address: be32(s, 8),
                    reserved: s.subrange(12, 40),
                    movie_objects_length: be32(s, 40),
                    movie_objects_reserved: s.subrange(44, 48),
                    movie_objects: objects,
                    extension_data: s.subrange(end, s.len() as int),
                },
            ),
        }
    }
}

/// The records of a run of commands, one after the other.
pub open spec fn commands_bytes(records: Seq<Seq<u8>>) -> Seq<u8>
    decreases records.len(),
{
    if records.len() == 0 {
        Seq::empty()
    } else {
        commands_bytes(records.drop_last()) + records.last()
    }
}

/// One movie object as bytes: flag word, command count, records.
pub open spec fn object_bytes(o: MovieObjectView) -> Seq<u8> {
    be16_bytes(o.flags) + be16_bytes(o.commands.len() as u16) + commands_bytes(o.commands)
}

/// A run of movie objects as bytes, one after the other.
pub open spec fn objects_bytes(objects: Seq<MovieObjectView>) -> Seq<u8>
    decreases objects.len(),
{
    if objects.len() == 0 {
        Seq::empty()
    } else {
        objects_bytes(objects.drop_last()) + object_bytes(objects.last())
    }
}

/// The 50 bytes of the header.
pub open spec fn header_bytes(c: BluRayView) -> Seq<u8> {
    magic() + be32_bytes(c.extension_start_address) + c.reserved + be32_bytes(
        c.movie_objects_length,
    ) + c.movie_objects_reserved + be16_bytes(c.movie_objects.len() as u16)
}

/// A whole container as bytes: header, table, and what follows it.
pub open spec fn container_bytes(c: BluRayView) -> Seq<u8> {
    header_bytes(c) + objects_bytes(c.movie_objects) + c.extension_data
}

/// A run of 12-byte records takes 12 bytes each.
pub proof fn lemma_records_len(records: Seq<Seq<u8>>)
    requires
        forall|i: int| 0 <= i < records.len() ==> (#[trigger] records[i]).len() == 12,
    ensures
        commands_bytes(records).len() == 12 * records.len(),
    decreases records.len(),
{
    if records.len() > 0 {
        let head = records.drop_last();
        assert forall|i: int| 0 <= i < head.len() implies (#[trigger] head[i]).len() == 12 by {
            assert(head[i] == records[i]);
        }
        lemma_records_len(head);
    }
}

/// A failure among the first records is the failure of any longer run.
pub proof fn lemma_parse_commands_error(s: Seq<u8>, start: int, object: u16, k: nat, n: nat)
    requires
        k <= n,
        parse_commands(s, start, object, k) is Err,
    ensures
        parse_commands(s, start, object, n) == parse_commands(s, start, object, k),
    decreases n,
{
    if k < n {
        lemma_parse_commands_error(s, start, object, k, (n - 1) as nat);
    }
}

/// A failure among the first movie objects is the failure of any longer run.
pub proof fn lemma_parse_objects_error(s: Seq<u8>, start: int, k: nat, n: nat)
    requires
        k <= n,
        parse_objects(s, start, k) is Err,
    ensures
        parse_objects(s, start, n) == parse_objects(s, start, k),
    decreases n,
{
    if k < n {
        lemma_parse_objects_error(s, start, k, (n - 1) as nat);
    }
}

fn read_record(data: &[u8], at: usize) -> (r: [u8; 12])
    requires
        at + 12 <= data@.len(),
    ensures
        r@ == data@.subrange(at as int, at + 12),
{
    let r: [u8; 12] = [
        data[at],
        data[at + 1],
        data[at + 2],
        data[at + 3],
        data[at + 4],
        data[at + 5],
        data[at + 6],
        data[at + 7],
        data[at + 8],
        data[at + 9],
        data[at + 10],
        data[at + 11],
    ];
    assert(r@ =~= data@.subrange(at as int, at + 12));
    r
}

/// Decodes the `count` records of movie object `object` that start at
/// `start`, and returns the commands with the position after them.
pub fn decode_commands(data: &[u8], start: usize, object: u16, count: u16) -> (r: Result<
    (Vec<NavigationCommand>, usize),
    OpenError,
>)
    requires
        start <= data@.len(),
    ensures
        match r {
            Ok((commands, end)) => {
                &&& parse_commands(data@, start as int, object, count as nat) == Ok::<
                    (Seq<Seq<u8>>, int),
                    OpenErrorView,
                >((records_of(commands@), end as int))
                &&& forall|i: int| 0 <= i < commands@.len() ==> (#[trigger] commands@[i]).wf()
                &&& commands@.len() == count
                &&& end == start + 12 * count
                &&& end <= data@.len()
            },
            Err(e) => parse_commands(data@, start as int, object, count as nat) == Err::<
                (Seq<Seq<u8>>, int),
                OpenErrorView,
            >(e@),
        },
{
    let total: usize = data.len();
    let mut commands: Vec<NavigationCommand> = Vec::new();
    let mut pos: usize = start;
    let mut j: u16 = 0;
    assert(records_of(commands@) =~= Seq::<Seq<u8>>::empty());
    while j < count
        invariant
            j <= count,
            total == data@.len(),
            pos == start + 12 * j,
            pos <= total,
            commands@.len() == j,
            parse_commands(data@, start as int, object, j as nat) == Ok::<
                (Seq<Seq<u8>>, int),
                OpenErrorView,
            >((records_of(commands@), pos as int)),
            forall|i: int| 0 <= i < commands@.len() ==> (#[trigger] commands@[i]).wf(),
        decreases count - j,
    {
        proof {
            assert(((j + 1) as nat - 1) as nat == j as nat);
            assert(((j + 1) as nat - 1) as u16 == j);
        }
        if total - pos < 12 {
            proof {
                lemma_parse_commands_error(
                    data@,
                    start as int,
                    object,
                    (j + 1) as nat,
                    count as nat,
                );
            }
            return Err(OpenError::NavigationCommandTruncated(object, j));
        }
        let bytes = read_record(data, pos);
        match NavigationCommand::from_bytes(&bytes) {
            Err(RecordError::BadOperandCount(code)) => {
                proof {
                    lemma_parse_commands_error(
                        data@,
                        start as int,
                        object,
                        (j + 1) as nat,
                        count as nat,
                    );
                }
                return Err(OpenError::NavigationCommandBadOperandCount(object, j, code));
            },
            Err(RecordError::InvalidCommand) => {
                proof {
                    lemma_parse_commands_error(
                        data@,
                        start as int,
                        object,
                        (j + 1) as nat,
                        count as nat,
                    );
                }
                return Err(OpenError::NavigationCommandInvalid(object, j, bytes));
            },
            Ok(command) => {
                let ghost before = commands@;
                commands.push(command);
                proof {
                    assert(records_of(commands@) =~= records_of(before).push(bytes@));
                }
                pos = pos + 12;
                j = j + 1;
            },
        }
    }
    Ok((commands, pos))
}

/// Decodes the `count` movie objects that start at `start`, and returns them
/// with the position after them.
pub fn decode_objects(data: &[u8], start: usize, count: u16) -> (r: Result<
    (Vec<MovieObject>, usize),
    OpenError,
>)
    requires
        start <= data@.len(),
    ensures
        match r {
            Ok((objects, end)) => {
                &&& parse_objects(data@, start as int, count as nat) == Ok::<
                    (Seq<MovieObjectView>, int),
                    OpenErrorView,
                >((views_of(objects@), end as int))
                &&& forall|i: int| 0 <= i < objects@.len() ==> (#[trigger] objects@[i]).wf()
                &&& objects@.len() == count
                &&& start <= end <= data@.len()
            },
            Err(e) => parse_objects(data@, start as int, count as nat) == Err::<
                (Seq<MovieObjectView>, int),
                OpenErrorView,
            >(e@),
        },
{
    let total: usize = data.len();
    let mut objects: Vec<MovieObject> = Vec::new();
    let mut pos: usize = start;
    let mut i: u16 = 0;
    assert(views_of(objects@) =~= Seq::<MovieObjectView>::empty());
    while i < count
        invariant
            i <= count,
            total == data@.len(),
            start <= pos <= total,
            objects@.len() == i,
            parse_objects(data@, start as int, i as nat) == Ok::<
                (Seq<MovieObjectView>, int),
                OpenErrorView,
            >((views_of(objects@), pos as int)),
            forall|k: int| 0 <= k < objects@.len() ==> (#[trigger] objects@[k]).wf(),
        decreases count - i,
    {
        proof {
            assert(((i + 1) as nat - 1) as nat == i as nat);
            assert(((i + 1) as nat - 1) as u16 == i);
        }
        if total - pos < 2 {
            proof {
                lemma_parse_objects_error(data@, start as int, (i + 1) as nat, count as nat);
            }
            return Err(OpenError::MovieObjectNoFlags);
        }
        let flags = read_be16(data, pos);
        if total - pos < 4 {
            proof {
                lemma_parse_objects_error(data@, start as int, (i + 1) as nat, count as nat);
            }
            return Err(OpenError::NavigationCommandsNoCount);
        }
        let navigation_commands_count = read_be16(data, pos + 2);
        match decode_commands(data, pos + 4, i, navigation_commands_count) {
            Err(e) => {
                proof {
                    lemma_parse_objects_error(data@, start as int, (i + 1) as nat, count as nat);
                }
                return Err(e);
            },
            Ok((navigation_commands, end)) => {
                let ghost before = objects@;
                let object = MovieObject { flags, navigation_commands };
                objects.push(object);
                proof {
                    assert(views_of(objects@) =~= views_of(before).push(object@));
                }
                pos = end;
                i = i + 1;
            },
        }
    }
    Ok((objects, pos))
}

impl MovieObject {
    /// Every command holds the fields of its record, and the commands can be
    /// counted in 16 bits.
    pub open spec fn wf(&self) -> bool {
        &&& self.navigation_commands@.len() <= 0xffff
        &&& forall|i: int|
            0 <= i < self.navigation_commands@.len() ==> (
            #[trigger] self.navigation_commands@[i]).wf()
    }

    /// Whether every command holds the fields of its record, and the
    /// commands can be counted in 16 bits.
    pub fn is_well_formed(&self) -> (r: bool)
        ensures
            r == self.wf(),
    {
        let n: usize = self.navigation_commands.len();
        if n > 0xffff {
            return false;
        }
        let mut j: usize = 0;
        while j < n
            invariant
                j <= n,
                n == self.navigation_commands@.len(),
                forall|i: int| 0 <= i < j ==> (#[trigger] self.navigation_commands@[i]).wf(),
            decreases n - j,
        {
            if !self.navigation_commands[j].is_well_formed() {
                return false;
            }
            j += 1;
        }
        true
    }

    /// The resume-intention flag: bit 15 of the flag word.
    pub fn resume_intention(&self) -> (r: bool)
        ensures
            r == (self.flags & 0x8000 != 0),
    {
        (self.flags & 0x8000) != 0
    }

    /// The menu-call mask: bit 14 of the flag word.
    pub fn menu_call_mask(&self) -> (r: bool)
        ensures
            r == (self.flags & 0x4000 != 0),
    {
        (self.flags & 0x4000) != 0
    }

    /// The title-search mask: bit 13 of the flag word.
    pub fn title_search_mask(&self) -> (r: bool)
        ensures
            r == (self.flags & 0x2000 != 0),
    {
        (self.flags & 0x2000) != 0
    }

    /// Appends this movie object as bytes: flag word, command count, and the
    /// record of each command as it stands.
    pub fn serialize_into(&self, out: &mut Vec<u8>)
        requires
            self.wf(),
        ensures
            final(out)@ == old(out)@ + object_bytes(self@),
    {
        let n: usize = self.navigation_commands.len();
        push_be16(out, self.flags);
        push_be16(out, n as u16);
        let ghost head = out@;
        let ghost records = records_of(self.navigation_commands@);
        let mut j: usize = 0;
        assert(records.take(0) =~= Seq::<Seq<u8>>::empty());
        while j < n
            invariant
                j <= n,
                n == self.navigation_commands@.len(),
                records == records_of(self.navigation_commands@),
                out@ == head + commands_bytes(records.take(j as int)),
            decreases n - j,
        {
            let bytes = self.navigation_commands[j].to_bytes();
            push_all(out, bytes.as_slice());
            proof {
                let next = records.take(j + 1);
                assert(next.drop_last() =~= records.take(j as int));
                assert(next.last() == bytes@);
            }
            j += 1;
        }
        proof {
            assert(records.take(n as int) =~= records);
            assert(out@ =~= old(out)@ + object_bytes(self@));
        }
    }
}

impl BluRay {
    /// The reserved runs have their lengths, every movie object is well
    /// formed, and the objects can be counted in 16 bits.
    pub open spec fn wf(&self) -> bool {
        &&& self.reserved@.len() == 28
        &&& self.movie_objects_reserved@.len() == 4
        &&& self.movie_objects@.len() <= 0xffff
        &&& forall|i: int|
            0 <= i < self.movie_objects@.len() ==> (#[trigger] self.movie_objects@[i]).wf()
    }

    /// Whether the reserved runs have their lengths, every movie object is
    /// well formed, and the objects can be counted in 16 bits.
    pub fn is_well_formed(&self) -> (r: bool)
        ensures
            r == self.wf(),
    {
        let n: usize = self.movie_objects.len();
        if self.reserved.len() != 28 || self.movie_objects_reserved.len() != 4 || n > 0xffff {
            return false;
        }
        let mut i: usize = 0;
        while i < n
            invariant
                i <= n,
                n == self.movie_objects@.len(),
                forall|k: int| 0 <= k < i ==> (#[trigger] self.movie_objects@[k]).wf(),
            decreases n - i,
        {
            if !self.movie_objects[i].is_well_formed() {
                return false;
            }
            i += 1;
        }
        true
    }

    /// The number of bytes that the movie objects take when encoded: for
    /// each, 4 bytes and 12 for every command.
    pub fn table_len(&self) -> (r: u64)
        requires
            self.wf(),
        ensures
            r == objects_bytes(self@.movie_objects).len(),
    {
        let n: usize = self.movie_objects.len();
        let ghost views = views_of(self.movie_objects@);
        let mut total: u64 = 0;
        let mut i: usize = 0;
        assert(views.take(0) =~= Seq::<MovieObjectView>::empty());
        while i < n
            invariant
                i <= n,
                n == self.movie_objects@.len(),
                self.wf(),
                views == views_of(self.movie_objects@),
                total == objects_bytes(views.take(i as int)).len(),
                total <= i * 786424,
            decreases n - i,
        {
            let count: usize = self.movie_objects[i].navigation_commands.len();
            proof {
                let next = views.take(i + 1);
                let o = self.movie_objects@[i as int];
                assert(o.wf());
                assert(next.drop_last() =~= views.take(i as int));
                assert(next.last() == o@);
                assert(commands_bytes(o@.commands).len() == 12 * count) by {
                    lemma_records_len(o@.commands);
                }
            }
            total = total + 4 + 12 * (count as u64);
            i += 1;
        }
        proof {
            assert(views.take(n as int) =~= views);
        }
        total
    }

    /// Whether the table length that the header states is the number of
    /// bytes that the movie objects take when encoded.
    pub fn length_matches(&self) -> (r: bool)
        requires
            self.wf(),
        ensures
            r == (self.movie_objects_length == objects_bytes(self@.movie_objects).len()),
    {
        self.table_len() == self.movie_objects_length as u64
    }

    /// Decodes a whole container.
    ///
    /// Returns the container that the buffer holds, or the first failure in
    /// the order of the layout; nothing is returned for a buffer that fails
    /// anywhere. What follows the last movie object is kept as it is.
    pub fn parse(data: &[u8]) -> (r: Result<BluRay, OpenError>)
        ensures
            match r {
                Ok(c) => c.wf() && parse_container(data@) == Ok::<BluRayView, OpenErrorView>(c@),
                Err(e) => parse_container(data@) == Err::<BluRayView, OpenErrorView>(e@),
            },
    {
        let total: usize = data.len();
        if total < 8 {
            return Err(OpenError::NoMagicBytes);
        }
        let ghost head = data@.subrange(0, 8);
        proof {
            assert(head[0] == data@[0] && head[1] == data@[1] && head[2] == data@[2] && head[3]
                == data@[3] && head[4] == data@[4] && head[5] == data@[5] && head[6] == data@[6]
                && head[7] == data@[7]);
        }
        if !(data[0] == 0x4d && data[1] == 0x4f && data[2] == 0x42 && data[3] == 0x4a && data[4]
            == 0x30 && data[5] == 0x32 && data[6] == 0x30 && data[7] == 0x30) {
            let actual: [u8; 8] = [
                data[0],
                data[1],
                data[2],
                data[3],
                data[4],
                data[5],
                data[6],
                data[7],
            ];
            assert(actual@ =~= head);
            return Err(OpenError::BadMagicBytes(actual));
        }
        assert(head =~= magic());
        if total < 12 {
            return Err(OpenError::NoExtensionStartAddress);
        }
        let extension_start_address = read_be32(data, 8);
        if total < 40 {
            return Err(OpenError::NoReservedBytes);
        }
        let reserved = copy_range(data, 12, 28);
        if total < 44 {
            return Err(OpenError::MovieObjectsNoLength);
        }
        let movie_objects_length = read_be32(data, 40);
        if total < 48 {
            return Err(OpenError::MovieObjectsNoReservedBytes);
        }
        let movie_objects_reserved = copy_range(data, 44, 4);
        if total < 50 {
            return Err(OpenError::MovieObjectsNoCount);
        }
        let movie_objects_count = read_be16(data, 48);
        match decode_objects(data, 50, movie_objects_count) {
            Err(e) => Err(e),
            Ok((movie_objects, end)) => {
                let extension_data = copy_range(data, end, total - end);
                Ok(
                    BluRay {
                        extension_start_address,
                        reserved,
                        movie_objects_length,
                        movie_objects_reserved,
                        movie_objects,
                        extension_data,
                    },
                )
            },
        }
    }

    /// Encodes the container: header, movie objects in order, and what
    /// followed them. Every command is written as the record it holds.
    pub fn serialize(&self) -> (r: Vec<u8>)
        requires
            self.wf(),
        ensures
            r@ == container_bytes(self@),
    {
        let mut out: Vec<u8> = Vec::new();
        out.push(0x4d);
        out.push(0x4f);
        out.push(0x42);
        out.push(0x4a);
        out.push(0x30);
        out.push(0x32);
        out.push(0x30);
        out.push(0x30);
        assert(out@ =~= magic());
        push_be32(&mut out, self.extension_start_address);
        push_all(&mut out, self.reserved.as_slice());
        push_be32(&mut out, self.movie_objects_length);
        push_all(&mut out, self.movie_objects_reserved.as_slice());
        let n: usize = self.movie_objects.len();
        push_be16(&mut out, n as u16);
        assert(out@ == header_bytes(self@));
        let ghost views = views_of(self.movie_objects@);
        let mut i: usize = 0;
        assert(views.take(0) =~= Seq::<MovieObjectView>::empty());
        while i < n
            invariant
                i <= n,
                n == self.movie_objects@.len(),
                self.wf(),
                views == views_of(self.movie_objects@),
                out@ == header_bytes(self@) + objects_bytes(views.take(i as int)),
            decreases n - i,
        {
            let ghost before = out@;
            self.movie_objects[i].serialize_into(&mut out);
            proof {
                let next = views.take(i + 1);
                assert(next.drop_last() =~= views.take(i as int));
                assert(next.last() == self.movie_objects@[i as int]@);
                assert(out@ =~= header_bytes(self@) + objects_bytes(next));
            }
            i += 1;
        }
        proof {
            assert(views.take(n as int) =~= views);
        }
        push_all(&mut out, self.extension_data.as_slice());
        out
    }
}

} // verus!
