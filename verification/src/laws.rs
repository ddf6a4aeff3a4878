//! What holds of decoding, encoding and patching together.

use vstd::prelude::*;
use crate::bytes::{
    be16,
    be16_bytes,
    be32,
    be32_bytes,
    lemma_be16_of_bytes,
    lemma_be32_bytes_value,
    lemma_be32_of_bytes,
    lemma_bytes_of_be16,
    lemma_bytes_of_be32,
};
use crate::container::{
    commands_bytes,
    container_bytes,
    header_bytes,
    lemma_records_len,
    magic,
    object_bytes,
    objects_bytes,
    parse_commands,
    parse_container,
    parse_objects,
    BluRayView,
    MovieObjectView,
    OpenErrorView,
};
use crate::opcode::{Branch, Command};
use crate::operand::{arity_of, operand_of, Operand, OperandCount};
use crate::patch::{
    is_nop_target,
    override_for,
    patched_container,
    patched_object,
    patched_record,
    source_override,
    source_register,
    NavigationCommandLocator,
    RegisterOverride,
};
use crate::record::{
    arity_bits,
    branch_option_bits,
    destination_flag,
    immediate_source_record,
    lemma_source_flag_set,
    lemma_zero_byte,
    nop_record,
    record_command,
    record_error,
    source_flag,
};

verus! {

/// Whether every record of a run has 12 bytes and is a navigation command.
pub open spec fn records_valid(records: Seq<Seq<u8>>) -> bool {
    forall|i: int|
        0 <= i < records.len() ==> (#[trigger] records[i]).len() == 12 && record_error(records[i])
            is None
}

/// In the bytes of a run of 12-byte records, record `i` stands at `12 * i`.
pub proof fn lemma_commands_bytes_at(records: Seq<Seq<u8>>, i: int)
    requires
        forall|k: int| 0 <= k < records.len() ==> (#[trigger] records[k]).len() == 12,
        0 <= i < records.len(),
    ensures
        commands_bytes(records).len() == 12 * records.len(),
        commands_bytes(records).subrange(12 * i, 12 * i + 12) == records[i],
    decreases records.len(),
{
    let head = records.drop_last();
    assert forall|k: int| 0 <= k < head.len() implies (#[trigger] head[k]).len() == 12 by {
        assert(head[k] == records[k]);
    }
    lemma_records_len(head);
    lemma_records_len(records);
    let all = commands_bytes(records);
    assert(all == commands_bytes(head) + records.last());
    if i == records.len() - 1 {
        assert(all.subrange(12 * i, 12 * i + 12) =~= records[i]);
    } else {
        lemma_commands_bytes_at(head, i);
        assert(head[i] == records[i]);
        assert(all.subrange(12 * i, 12 * i + 12) =~= commands_bytes(head).subrange(
            12 * i,
            12 * i + 12,
        ));
    }
}

/// The bytes of the first `k` movie objects open the bytes of all of them.
pub proof fn lemma_objects_bytes_prefix(objects: Seq<MovieObjectView>, k: int)
    requires
        0 <= k <= objects.len(),
    ensures
        objects_bytes(objects.take(k)).len() <= objects_bytes(objects).len(),
        objects_bytes(objects).subrange(0, objects_bytes(objects.take(k)).len() as int)
            == objects_bytes(objects.take(k)),
    decreases objects.len(),
{
    let all = objects_bytes(objects);
    if k == objects.len() {
        assert(objects.take(k) =~= objects);
        assert(all.subrange(0, all.len() as int) =~= all);
    } else {
        let head = objects.drop_last();
        lemma_objects_bytes_prefix(head, k);
        assert(head.take(k) =~= objects.take(k));
        let part = objects_bytes(objects.take(k));
        assert(all == objects_bytes(head) + object_bytes(objects.last()));
        assert(all.subrange(0, part.len() as int) =~= objects_bytes(head).subrange(
            0,
            part.len() as int,
        ));
    }
}

/// Movie objects that agree in the number of their 12-byte records take as
/// many bytes.
pub proof fn lemma_objects_bytes_len(a: Seq<MovieObjectView>, b: Seq<MovieObjectView>)
    requires
        a.len() == b.len(),
        forall|i: int|
            0 <= i < a.len() ==> (#[trigger] a[i]).commands.len() == b[i].commands.len(),
        forall|i: int| 0 <= i < a.len() ==> records_valid((#[trigger] a[i]).commands),
        forall|i: int| 0 <= i < b.len() ==> records_valid((#[trigger] b[i]).commands),
    ensures
        objects_bytes(a).len() == objects_bytes(b).len(),
    decreases a.len(),
{
    if a.len() > 0 {
        let ha = a.drop_last();
        let hb = b.drop_last();
        assert forall|i: int| 0 <= i < ha.len() implies (#[trigger] ha[i]).commands.len()
            == hb[i].commands.len() && records_valid(ha[i].commands) && records_valid(
            hb[i].commands,
        ) by {
            assert(ha[i] == a[i]);
            assert(hb[i] == b[i]);
        }
        lemma_objects_bytes_len(ha, hb);
        let la = a.last();
        let lb = b.last();
        assert(la == a[a.len() - 1]);
        assert(lb == b[b.len() - 1]);
        lemma_records_len(la.commands);
        lemma_records_len(lb.commands);
    }
}

/// Where the first `count` records of a movie object can be read, they are
/// navigation commands of 12 bytes each, and they are the bytes read.
pub proof fn lemma_parse_commands_bytes(s: Seq<u8>, start: int, object: u16, count: nat)
    requires
        0 <= start <= s.len(),
        parse_commands(s, start, object, count) is Ok,
    ensures
        ({
            let (records, end) = parse_commands(s, start, object, count)->Ok_0;
            &&& records.len() == count
            &&& end == start + 12 * count
            &&& end <= s.len()
            &&& records_valid(records)
            &&& commands_bytes(records) == s.subrange(start, end)
        }),
    decreases count,
{
    if count == 0 {
        assert(commands_bytes(Seq::<Seq<u8>>::empty()) =~= s.subrange(start, start));
    } else {
        lemma_parse_commands_bytes(s, start, object, (count - 1) as nat);
        let (head, pos) = parse_commands(s, start, object, (count - 1) as nat)->Ok_0;
        let (records, end) = parse_commands(s, start, object, count)->Ok_0;
        let record = s.subrange(pos, pos + 12);
        assert(records == head.push(record));
        assert(records.drop_last() =~= head);
        assert(records.last() == record);
        assert(commands_bytes(records) =~= s.subrange(start, end));
    }
}

/// Where the first `count` movie objects can be read, they are valid, and
/// they are the bytes read.
pub proof fn lemma_parse_objects_bytes(s: Seq<u8>, start: int, count: nat)
    requires
        0 <= start <= s.len(),
        parse_objects(s, start, count) is Ok,
    ensures
        ({
            let (objects, end) = parse_objects(s, start, count)->Ok_0;
            &&& objects.len() == count
            &&& start <= end <= s.len()
            &&& forall|i: int| 0 <= i < objects.len() ==> (#[trigger] objects[i]).valid()
            &&& objects_bytes(objects) == s.subrange(start, end)
        }),
    decreases count,
{
    if count == 0 {
        assert(objects_bytes(Seq::<MovieObjectView>::empty()) =~= s.subrange(start, start));
    } else {
        lemma_parse_objects_bytes(s, start, (count - 1) as nat);
        let (head, pos) = parse_objects(s, start, (count - 1) as nat)->Ok_0;
        let (objects, end) = parse_objects(s, start, count)->Ok_0;
        let n = be16(s, pos + 2) as nat;
        lemma_parse_commands_bytes(s, pos + 4, (count - 1) as u16, n);
        let (records, stop) = parse_commands(s, pos + 4, (count - 1) as u16, n)->Ok_0;
        let o = MovieObjectView { flags: be16(s, pos), commands: records };
        assert(objects == head.push(o));
        assert(end == stop);
        lemma_bytes_of_be16(s, pos);
        lemma_bytes_of_be16(s, pos + 2);
        assert(records.len() as u16 == be16(s, pos + 2));
        assert(object_bytes(o) =~= s.subrange(pos, end));
        assert(objects.drop_last() =~= head);
        assert(objects.last() == o);
        assert(objects_bytes(objects) =~= s.subrange(start, end));
        assert forall|i: int| 0 <= i < objects.len() implies (#[trigger] objects[i]).valid() by {
            if i < head.len() {
                assert(objects[i] == head[i]);
            }
        }
    }
}

/// Encoding what a buffer decodes to gives the buffer back, byte for byte;
/// and what a buffer decodes to is a valid container.
pub proof fn lemma_encode_of_decode(s: Seq<u8>)
    requires
        parse_container(s) is Ok,
    ensures
        parse_container(s)->Ok_0.valid(),
        container_bytes(parse_container(s)->Ok_0) == s,
{
    let c = parse_container(s)->Ok_0;
    lemma_parse_objects_bytes(s, 50, be16(s, 48) as nat);
    let (objects, end) = parse_objects(s, 50, be16(s, 48) as nat)->Ok_0;
    lemma_bytes_of_be32(s, 8);
    lemma_bytes_of_be32(s, 40);
    lemma_bytes_of_be16(s, 48);
    assert(c.movie_objects.len() as u16 == be16(s, 48));
    assert(s.subrange(0, 8) == magic());
    assert(header_bytes(c) =~= s.subrange(0, 50));
    assert(container_bytes(c) =~= s);
}

/// Reading the first `k` records from the bytes of a run of navigation
/// commands gives the first `k` of them.
pub proof fn lemma_parse_commands_of_bytes(
    s: Seq<u8>,
    start: int,
    object: u16,
    records: Seq<Seq<u8>>,
    k: nat,
)
    requires
        0 <= start,
        records_valid(records),
        k <= records.len(),
        start + 12 * records.len() <= s.len(),
        s.subrange(start, start + 12 * records.len()) == commands_bytes(records),
    ensures
        parse_commands(s, start, object, k) == Ok::<(Seq<Seq<u8>>, int), OpenErrorView>(
            (records.take(k as int), start + 12 * k),
        ),
    decreases k,
{
    if k == 0 {
        assert(records.take(0) =~= Seq::<Seq<u8>>::empty());
    } else {
        lemma_parse_commands_of_bytes(s, start, object, records, (k - 1) as nat);
        let pos = start + 12 * (k - 1);
        let record = s.subrange(pos, pos + 12);
        lemma_commands_bytes_at(records, k - 1);
        assert(record =~= s.subrange(start, start + 12 * records.len()).subrange(
            12 * (k - 1),
            12 * (k - 1) + 12,
        ));
        assert(record == records[k - 1]);
        assert(records.take(k - 1).push(record) =~= records.take(k as int));
    }
}

/// Where a valid movie object stands at `pos`, its flag word, its command
/// count and the bytes of its commands can be read there.
pub proof fn lemma_object_fields_of_bytes(s: Seq<u8>, pos: int, o: MovieObjectView)
    requires
        0 <= pos,
        o.valid(),
        pos + object_bytes(o).len() <= s.len(),
        s.subrange(pos, pos + object_bytes(o).len()) == object_bytes(o),
    ensures
        object_bytes(o).len() == 4 + 12 * o.commands.len(),
        be16(s, pos) == o.flags,
        be16(s, pos + 2) as nat == o.commands.len(),
        s.subrange(pos + 4, pos + 4 + 12 * o.commands.len()) == commands_bytes(o.commands),
{
    let n = o.commands.len();
    lemma_records_len(o.commands);
    let ob = object_bytes(o);
    let here = s.subrange(pos, pos + ob.len());
    assert(ob.len() == 4 + 12 * n);
    assert(s.subrange(pos, pos + 2) =~= be16_bytes(o.flags)) by {
        assert(s.subrange(pos, pos + 2) =~= here.subrange(0, 2));
        assert(ob.subrange(0, 2) =~= be16_bytes(o.flags));
    }
    assert(s.subrange(pos + 2, pos + 4) =~= be16_bytes(n as u16)) by {
        assert(s.subrange(pos + 2, pos + 4) =~= here.subrange(2, 4));
        assert(ob.subrange(2, 4) =~= be16_bytes(n as u16));
    }
    assert(s.subrange(pos + 4, pos + 4 + 12 * n) =~= commands_bytes(o.commands)) by {
        assert(s.subrange(pos + 4, pos + 4 + 12 * n) =~= here.subrange(4, ob.len() as int));
        assert(ob.subrange(4, ob.len() as int) =~= commands_bytes(o.commands));
    }
    lemma_be16_of_bytes(s, pos, o.flags);
    lemma_be16_of_bytes(s, pos + 2, n as u16);
}

/// In the bytes of a run of movie objects, object `k` stands right after
/// the bytes of the first `k` objects.
pub proof fn lemma_objects_bytes_at(objects: Seq<MovieObjectView>, k: int)
    requires
        0 <= k < objects.len(),
    ensures
        objects_bytes(objects.take(k + 1)) == objects_bytes(objects.take(k)) + object_bytes(
            objects[k],
        ),
        objects_bytes(objects.take(k + 1)).len() <= objects_bytes(objects).len(),
        objects_bytes(objects).subrange(
            objects_bytes(objects.take(k)).len() as int,
            objects_bytes(objects.take(k + 1)).len() as int,
        ) == object_bytes(objects[k]),
{
    let head = objects.take(k);
    let part = objects.take(k + 1);
    assert(part.drop_last() =~= head);
    assert(part.last() == objects[k]);
    lemma_objects_bytes_prefix(objects, k + 1);
    let all = objects_bytes(objects);
    let a = objects_bytes(head).len() as int;
    let b = objects_bytes(part).len() as int;
    assert(all.subrange(a, b) =~= all.subrange(0, b).subrange(a, b));
    assert(objects_bytes(part).subrange(a, b) =~= object_bytes(objects[k]));
}

/// Reading the first `k` movie objects from the bytes of a run of valid
/// movie objects gives the first `k` of them.
pub proof fn lemma_parse_objects_of_bytes(
    s: Seq<u8>,
    start: int,
    objects: Seq<MovieObjectView>,
    k: nat,
)
    requires
        0 <= start,
        forall|i: int| 0 <= i < objects.len() ==> (#[trigger] objects[i]).valid(),
        objects.len() <= 0xffff,
        k <= objects.len(),
        start + objects_bytes(objects).len() <= s.len(),
        s.subrange(start, start + objects_bytes(objects).len()) == objects_bytes(objects),
    ensures
        parse_objects(s, start, k) == Ok::<(Seq<MovieObjectView>, int), OpenErrorView>(
            (objects.take(k as int), start + objects_bytes(objects.take(k as int)).len()),
        ),
    decreases k,
{
    if k == 0 {
        assert(objects.take(0) =~= Seq::<MovieObjectView>::empty());
    } else {
        lemma_parse_objects_of_bytes(s, start, objects, (k - 1) as nat);
        let head = objects.take(k - 1);
        let part = objects.take(k as int);
        let o = objects[k - 1];
        let n = o.commands.len();
        let pos = start + objects_bytes(head).len();
        let end = start + objects_bytes(part).len();
        let all = objects_bytes(objects);
        lemma_objects_bytes_at(objects, k - 1);
        assert(o.valid());
        assert(s.subrange(pos, end) =~= object_bytes(o)) by {
            assert(s.subrange(pos, end) =~= s.subrange(start, start + all.len()).subrange(
                objects_bytes(head).len() as int,
                objects_bytes(part).len() as int,
            ));
        }
        lemma_object_fields_of_bytes(s, pos, o);
        lemma_parse_commands_of_bytes(s, pos + 4, (k - 1) as u16, o.commands, n);
        assert(o.commands.take(n as int) =~= o.commands);
        assert(head.push(MovieObjectView { flags: o.flags, commands: o.commands }) =~= part);
    }
}

/// Decoding the bytes of a valid container gives the container back, field
/// for field, reserved and trailing bytes included.
pub proof fn lemma_decode_of_encode(c: BluRayView)
    requires
        c.valid(),
    ensures
        parse_container(container_bytes(c)) == Ok::<BluRayView, OpenErrorView>(c),
{
    let s = container_bytes(c);
    let h = header_bytes(c);
    let table = objects_bytes(c.movie_objects);
    let n = c.movie_objects.len();
    assert(h.len() == 50);
    assert(s.subrange(0, 50) =~= h);
    assert(s.subrange(0, 8) =~= magic()) by {
        assert(s.subrange(0, 8) =~= h.subrange(0, 8));
    }
    assert(s.subrange(8, 12) =~= be32_bytes(c.extension_start_address)) by {
        assert(s.subrange(8, 12) =~= h.subrange(8, 12));
    }
    assert(s.subrange(12, 40) =~= c.reserved) by {
        assert(s.subrange(12, 40) =~= h.subrange(12, 40));
    }
    assert(s.subrange(40, 44) =~= be32_bytes(c.movie_objects_length)) by {
        assert(s.subrange(40, 44) =~= h.subrange(40, 44));
    }
    assert(s.subrange(44, 48) =~= c.movie_objects_reserved) by {
        assert(s.subrange(44, 48) =~= h.subrange(44, 48));
    }
    assert(s.subrange(48, 50) =~= be16_bytes(n as u16)) by {
        assert(s.subrange(48, 50) =~= h.subrange(48, 50));
    }
    lemma_be32_of_bytes(s, 8, c.extension_start_address);
    lemma_be32_of_bytes(s, 40, c.movie_objects_length);
    lemma_be16_of_bytes(s, 48, n as u16);
    assert(be16(s, 48) as nat == n);
    let end = 50 + table.len() as int;
    assert(s.subrange(50, end) =~= table);
    lemma_parse_objects_of_bytes(s, 50, c.movie_objects, n);
    assert(c.movie_objects.take(n as int) =~= c.movie_objects);
    assert(s.subrange(end, s.len() as int) =~= c.extension_data);
}

/// The record of twelve zero bytes is a navigation command: a branch `Nop`
/// that uses no operand.
pub proof fn lemma_nop_record_decodes()
    ensures
        nop_record().len() == 12,
        record_error(nop_record()) is None,
        record_command(nop_record()) == Some(Command::Branch(Branch::Nop)),
        arity_of(arity_bits(nop_record())) == Some(OperandCount::NoOperand),
        operand_of(destination_flag(nop_record()), be32(nop_record(), 4)) == Operand::Gpr(0),
        operand_of(source_flag(nop_record()), be32(nop_record(), 8)) == Operand::Gpr(0),
{
    lemma_zero_byte();
}

/// Turning the source of a record into an immediate constant changes what
/// the source decodes to and nothing else: arity, operation and destination
/// stay.
pub proof fn lemma_immediate_source_decodes(raw: Seq<u8>, value: u32)
    requires
        raw.len() == 12,
    ensures
        ({
            let r = immediate_source_record(raw, value);
            &&& r.len() == 12
            &&& arity_bits(r) == arity_bits(raw)
            &&& record_command(r) == record_command(raw)
            &&& record_error(r) == record_error(raw)
            &&& operand_of(destination_flag(r), be32(r, 4)) == operand_of(
                destination_flag(raw),
                be32(raw, 4),
            )
            &&& operand_of(source_flag(r), be32(r, 8)) == Operand::Immediate(value)
        }),
{
    let r = immediate_source_record(raw, value);
    let b = raw[1];
    lemma_source_flag_set(b);
    lemma_be32_bytes_value(value);
    assert(r[0] == raw[0] && r[1] == b | 0x40 && r[2] == raw[2] && r[3] == raw[3]);
    assert(r[4] == raw[4] && r[5] == raw[5] && r[6] == raw[6] && r[7] == raw[7]);
    assert(r[8] == be32_bytes(value)[0] && r[9] == be32_bytes(value)[1] && r[10] == be32_bytes(
        value,
    )[2] && r[11] == be32_bytes(value)[3]);
    assert(branch_option_bits(r) == branch_option_bits(raw));
}

/// A patched navigation command is a navigation command.
pub proof fn lemma_patched_record_valid(raw: Seq<u8>, nop: bool, overrides: Seq<RegisterOverride>)
    requires
        raw.len() == 12,
        record_error(raw) is None,
    ensures
        patched_record(raw, nop, overrides).len() == 12,
        record_error(patched_record(raw, nop, overrides)) is None,
{
    lemma_nop_record_decodes();
    if !nop {
        match source_override(raw, overrides) {
            Some(value) => {
                lemma_immediate_source_decodes(raw, value);
            },
            None => {},
        }
    }
}

/// Patching keeps a container valid, and keeps the number of movie objects
/// and of the commands of each.
pub proof fn lemma_patched_valid(
    c: BluRayView,
    nops: Seq<NavigationCommandLocator>,
    overrides: Seq<RegisterOverride>,
)
    requires
        c.valid(),
    ensures
        patched_container(c, nops, overrides).valid(),
        patched_container(c, nops, overrides).movie_objects.len() == c.movie_objects.len(),
        forall|i: int|
            0 <= i < c.movie_objects.len() ==> (#[trigger] patched_container(
                c,
                nops,
                overrides,
            ).movie_objects[i]).commands.len() == c.movie_objects[i].commands.len(),
{
    let p = patched_container(c, nops, overrides);
    assert forall|i: int| 0 <= i < p.movie_objects.len() implies (
    #[trigger] p.movie_objects[i]).valid() by {
        let o = c.movie_objects[i];
        let q = p.movie_objects[i];
        assert(o.valid());
        assert(q == patched_object(o, i, nops, overrides));
        assert forall|j: int| 0 <= j < q.commands.len() implies (#[trigger] q.commands[j]).len()
            == 12 && record_error(q.commands[j]) is None by {
            assert(o.commands[j].len() == 12);
            lemma_patched_record_valid(o.commands[j], is_nop_target(nops, i, j), overrides);
        }
    }
}

/// The bytes of a patched container decode to the patched container, and
/// they are as many as the bytes of the container before.
pub proof fn lemma_patch_round_trip(
    c: BluRayView,
    nops: Seq<NavigationCommandLocator>,
    overrides: Seq<RegisterOverride>,
)
    requires
        c.valid(),
    ensures
        parse_container(container_bytes(patched_container(c, nops, overrides))) == Ok::<
            BluRayView,
            OpenErrorView,
        >(patched_container(c, nops, overrides)),
        container_bytes(patched_container(c, nops, overrides)).len() == container_bytes(c).len(),
{
    let p = patched_container(c, nops, overrides);
    lemma_patched_valid(c, nops, overrides);
    lemma_decode_of_encode(p);
    assert forall|i: int| 0 <= i < c.movie_objects.len() implies records_valid(
        (#[trigger] c.movie_objects[i]).commands,
    ) by {
        assert(c.movie_objects[i].valid());
    }
    assert forall|i: int| 0 <= i < p.movie_objects.len() implies records_valid(
        (#[trigger] p.movie_objects[i]).commands,
    ) by {
        assert(p.movie_objects[i].valid());
    }
    lemma_objects_bytes_len(c.movie_objects, p.movie_objects);
}

/// After a no-op patch of the place (object, command), the command decoded
/// from the output at that place is a branch `Nop` that uses no operand.
pub proof fn lemma_nop_patch(
    c: BluRayView,
    nops: Seq<NavigationCommandLocator>,
    overrides: Seq<RegisterOverride>,
    object: int,
    command: int,
)
    requires
        c.valid(),
        0 <= object < c.movie_objects.len(),
        0 <= command < c.movie_objects[object].commands.len(),
        is_nop_target(nops, object, command),
    ensures
        ({
            let decoded = parse_container(
                container_bytes(patched_container(c, nops, overrides)),
            );
            &&& decoded is Ok
            &&& decoded->Ok_0.movie_objects[object].commands[command] == nop_record()
            &&& record_command(nop_record()) == Some(Command::Branch(Branch::Nop))
            &&& arity_of(arity_bits(nop_record())) == Some(OperandCount::NoOperand)
        }),
{
    lemma_patch_round_trip(c, nops, overrides);
    lemma_nop_record_decodes();
}

/// A command whose place is no target of a no-op patch, and which reads no
/// overridden register, is in the decoded output what it was, byte for byte.
pub proof fn lemma_patch_elsewhere(
    c: BluRayView,
    nops: Seq<NavigationCommandLocator>,
    overrides: Seq<RegisterOverride>,
    object: int,
    command: int,
)
    requires
        c.valid(),
        0 <= object < c.movie_objects.len(),
        0 <= command < c.movie_objects[object].commands.len(),
        !is_nop_target(nops, object, command),
        source_override(c.movie_objects[object].commands[command], overrides) is None,
    ensures
        ({
            let decoded = parse_container(
                container_bytes(patched_container(c, nops, overrides)),
            );
            &&& decoded is Ok
            &&& decoded->Ok_0.movie_objects[object].commands[command]
                == c.movie_objects[object].commands[command]
            &&& decoded->Ok_0.movie_objects[object].flags == c.movie_objects[object].flags
        }),
{
    lemma_patch_round_trip(c, nops, overrides);
}

/// A command with both operands that reads an overridden player-specific
/// register as its source decodes, after the patch, with the constant as an
/// immediate source and with the operation, arity and destination it had.
pub proof fn lemma_override_patch(
    raw: Seq<u8>,
    overrides: Seq<RegisterOverride>,
    register: u8,
    value: u32,
)
    requires
        raw.len() == 12,
        record_error(raw) is None,
        source_register(raw) == Some(register),
        override_for(overrides, register) == Some(value),
    ensures
        ({
            let r = patched_record(raw, false, overrides);
            &&& r.len() == 12
            &&& record_error(r) is None
            &&& record_command(r) == record_command(raw)
            &&& arity_of(arity_bits(r)) == Some(OperandCount::DestinationAndSource)
            &&& operand_of(destination_flag(r), be32(r, 4)) == operand_of(
                destination_flag(raw),
                be32(raw, 4),
            )
            &&& operand_of(source_flag(r), be32(r, 8)) == Operand::Immediate(value)
        }),
{
    lemma_immediate_source_decodes(raw, value);
}

} // verus!
