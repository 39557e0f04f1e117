//! Attribute types and the vertex layout generator.
//!
//! An [`AttributeType`] describes one vertex attribute: its component count,
//! element type, and byte size. A [`VertexLayout`] is the declarative schema
//! of a record type — an ordered list of named, typed fields, optionally
//! per-instance — and its generator resolves every field name against the
//! active program's attribute table and emits the exact pointer, enable, and
//! divisor calls, with each field's byte offset the running sum of the
//! preceding fields' sizes and the stride the total record size. Records are
//! tightly packed: no padding is ever inserted.

use vstd::prelude::*;

use crate::command::AttribDataType;
use crate::command::BufferKind;
use crate::command::Command;
use crate::context::GL;
use crate::shader::spec_lookup;
use crate::shader::lookup;
use crate::shader::Program;
use crate::shader::ProgramInput;
use crate::Fault;

verus! {

/// The closed set of scalar and vector attribute types a field may have:
/// one to four float components, or one int component.
#[derive(Clone, Copy, Debug, PartialEq, Eq, Structural)]
pub enum AttributeType {
    F32,
    F32F32,
    F32F32F32,
    F32F32F32F32,
    I32,
}

impl AttributeType {
    /// The byte size of one value of this type (components times four).
    pub open spec fn spec_size(self) -> usize {
        match self {
            AttributeType::F32 => 4,
            AttributeType::F32F32 => 8,
            AttributeType::F32F32F32 => 12,
            AttributeType::F32F32F32F32 => 16,
            AttributeType::I32 => 4,
        }
    }

    /// The byte size of one value of this type.
    pub fn size(self) -> (r: usize)
        ensures
            r == self.spec_size(),
    {
        match self {
            AttributeType::F32 => 4,
            AttributeType::F32F32 => 8,
            AttributeType::F32F32F32 => 12,
            AttributeType::F32F32F32F32 => 16,
            AttributeType::I32 => 4,
        }
    }

    /// How many components one value of this type has.
    pub open spec fn spec_components(self) -> u32 {
        match self {
            AttributeType::F32 => 1,
            AttributeType::F32F32 => 2,
            AttributeType::F32F32F32 => 3,
            AttributeType::F32F32F32F32 => 4,
            AttributeType::I32 => 1,
        }
    }

    /// The element type of one component.
    pub open spec fn spec_data_type(self) -> AttribDataType {
        match self {
            AttributeType::I32 => AttribDataType::Int,
            _ => AttribDataType::Float,
        }
    }

    /// Describe the attribute at `location` as one value of this type read
    /// every `stride` bytes starting at byte `offset`, and enable it.
    pub fn vertex_attrib_pointer(self, gl: &mut GL, stride: u32, location: u32, offset: u32)
        ensures
            final(gl)@ == old(gl)@.append(attrib_pointer_cmds(self, location, stride, offset)),
    {
        let components: u32 = match self {
            AttributeType::F32 => 1,
            AttributeType::F32F32 => 2,
            AttributeType::F32F32F32 => 3,
            AttributeType::F32F32F32F32 => 4,
            AttributeType::I32 => 1,
        };
        let data_type = match self {
            AttributeType::I32 => AttribDataType::Int,
            _ => AttribDataType::Float,
        };
        let ghost pre = gl@;
        gl.emit(Command::EnableVertexAttribArray(location));
        gl.emit(
            Command::VertexAttribPointer {
                location,
                components,
                data_type,
                normalized: false,
                stride,
                offset,
            },
        );
        proof {
            assert(final(gl)@.log =~= pre.log + attrib_pointer_cmds(
                self,
                location,
                stride,
                offset,
            ));
        }
    }
}

/// The two calls that describe and enable one attribute.
pub open spec fn attrib_pointer_cmds(
    t: AttributeType,
    location: u32,
    stride: u32,
    offset: u32,
) -> Seq<Command> {
    seq![
        Command::EnableVertexAttribArray(location),
        Command::VertexAttribPointer {
            location,
            components: t.spec_components(),
            data_type: t.spec_data_type(),
            normalized: false,
            stride,
            offset,
        },
    ]
}

/// A single-int value with the fixed layout of its one field.
#[allow(non_camel_case_types)]
#[derive(Clone, Copy, Debug, PartialEq, Eq, Structural)]
pub struct i32_ {
    pub d0: i32,
}

impl i32_ {
    /// Wrap one int.
    pub fn new(d0: i32) -> (r: i32_)
        ensures
            r.d0 == d0,
    {
        i32_ { d0 }
    }

    /// Describe an attribute of this type; see
    /// [`AttributeType::vertex_attrib_pointer`].
    pub fn vertex_attrib_pointer(gl: &mut GL, stride: u32, location: u32, offset: u32)
        ensures
            final(gl)@ == old(gl)@.append(
                attrib_pointer_cmds(AttributeType::I32, location, stride, offset),
            ),
    {
        AttributeType::I32.vertex_attrib_pointer(gl, stride, location, offset);
    }
}

/// One field of a record type: its attribute name, its type, and, when the
/// attribute advances per instance rather than per vertex, its divisor.
#[derive(Clone, Debug)]
pub struct FieldDesc {
    pub name: String,
    pub ty: AttributeType,
    pub divisor: Option<u32>,
}

/// The byte offset of field `i`: the sum of the sizes of the fields before
/// it, in declared order, starting at zero — records are tightly packed.
pub open spec fn field_offset(fields: Seq<FieldDesc>, i: int) -> int
    decreases i,
{
    if i <= 0 {
        0
    } else {
        field_offset(fields, i - 1) + fields[i - 1].ty.spec_size()
    }
}

/// The total byte size of one record: the offset past the last field.
pub open spec fn record_size(fields: Seq<FieldDesc>) -> int {
    field_offset(fields, fields.len() as int)
}

/// Field offsets never decrease along the record.
pub proof fn lemma_field_offset_monotonic(fields: Seq<FieldDesc>, i: int, j: int)
    requires
        0 <= i <= j,
    ensures
        field_offset(fields, i) <= field_offset(fields, j),
    decreases j,
{
    if i < j {
        lemma_field_offset_monotonic(fields, i, j - 1);
    }
}

/// A field's offset depends only on the fields before it.
pub proof fn lemma_field_offset_prefix(a: Seq<FieldDesc>, b: Seq<FieldDesc>, i: int)
    requires
        0 <= i <= a.len(),
        a.len() <= b.len(),
        forall|j: int| 0 <= j < a.len() ==> a[j] == b[j],
    ensures
        field_offset(a, i) == field_offset(b, i),
    decreases i,
{
    if i > 0 {
        lemma_field_offset_prefix(a, b, i - 1);
    }
}

/// Whether the program's attribute table has an entry for the field's name.
pub open spec fn resolves(f: FieldDesc, table: Seq<ProgramInput>) -> bool {
    spec_lookup(table, f.name@) is Some
}

/// Whether every field of the record resolves in the table.
pub open spec fn all_resolve(fields: Seq<FieldDesc>, table: Seq<ProgramInput>) -> bool {
    forall|i: int| 0 <= i < fields.len() ==> #[trigger] resolves(fields[i], table)
}

/// The divisor call for a per-instance field, or nothing.
pub open spec fn divisor_cmds(f: FieldDesc, loc: u32) -> Seq<Command> {
    match f.divisor {
        Some(d) => seq![Command::VertexAttribDivisor { location: loc, divisor: d }],
        None => Seq::empty(),
    }
}

/// All calls for one field: describe and enable it, then its divisor call
/// if it is per-instance.
pub open spec fn field_cmds(f: FieldDesc, loc: u32, stride: u32, offset: u32) -> Seq<Command> {
    attrib_pointer_cmds(f.ty, loc, stride, offset) + divisor_cmds(f, loc)
}

/// The full binding sequence of a record: each field's calls in declared
/// order, at the field's resolved location and packed offset, with the
/// record size as the shared stride.
pub open spec fn layout_cmds(
    fields: Seq<FieldDesc>,
    table: Seq<ProgramInput>,
    stride: u32,
) -> Seq<Command>
    decreases fields.len(),
{
    if fields.len() == 0 {
        Seq::empty()
    } else {
        layout_cmds(fields.drop_last(), table, stride) + field_cmds(
            fields.last(),
            spec_lookup(table, fields.last().name@)->0,
            stride,
            field_offset(fields, fields.len() - 1) as u32,
        )
    }
}

/// The declarative schema of a record type: its fields in declared order.
/// Reordering fields changes every offset and so the whole binding.
#[derive(Clone, Debug)]
pub struct VertexLayout {
    pub fields: Vec<FieldDesc>,
}

impl VertexLayout {
    /// A layout is well-formed when one record's byte size fits the range a
    /// binding call can carry.
    pub open spec fn wf(self) -> bool {
        record_size(self.fields@) <= 0x7FFF_FFFF
    }

    /// Build a layout from a field list, rejecting a record too large for
    /// a binding call.
    pub fn new(fields: Vec<FieldDesc>) -> (r: Result<VertexLayout, Fault>)
        ensures
            record_size(fields@) <= 0x7FFF_FFFF ==> (r matches Ok(l) && l.fields == fields
                && l.wf()),
            record_size(fields@) > 0x7FFF_FFFF ==> (r matches Err(f) && f
                == Fault::RecordTooLarge),
    {
        let mut total: usize = 0;
        let mut i: usize = 0;
        while i < fields.len()
            invariant
                i <= fields@.len(),
                total == field_offset(fields@, i as int),
                total <= 0x7FFF_FFFF,
            decreases fields@.len() - i,
        {
            let sz = fields[i].ty.size();
            if total > 0x7FFF_FFFF - sz {
                proof {
                    lemma_field_offset_monotonic(fields@, i as int + 1, fields@.len() as int);
                }
                return Err(Fault::RecordTooLarge);
            }
            total = total + sz;
            i = i + 1;
        }
        Ok(VertexLayout { fields })
    }

    /// The byte size of one record, shared by every field as the stride.
    pub fn stride(&self) -> (r: usize)
        requires
            self.wf(),
        ensures
            r == record_size(self.fields@),
    {
        let mut total: usize = 0;
        let mut i: usize = 0;
        while i < self.fields.len()
            invariant
                i <= self.fields@.len(),
                total == field_offset(self.fields@, i as int),
                record_size(self.fields@) <= 0x7FFF_FFFF,
            decreases self.fields@.len() - i,
        {
            proof {
                lemma_field_offset_monotonic(self.fields@, i as int + 1, self.fields@.len() as int);
            }
            total = total + self.fields[i].ty.size();
            i = i + 1;
        }
        total
    }

    /// The index of the first field whose name the table does not resolve,
    /// or nothing when every field resolves.
    pub fn first_unresolved(&self, table: &Vec<ProgramInput>) -> (r: Option<usize>)
        ensures
            r is None <==> all_resolve(self.fields@, table@),
            r matches Some(i) ==> i < self.fields@.len() && !resolves(self.fields@[i as int],
            table@),
    {
        let mut i: usize = 0;
        while i < self.fields.len()
            invariant
                i <= self.fields@.len(),
                forall|j: int| 0 <= j < i ==> #[trigger] resolves(self.fields@[j], table@),
            decreases self.fields@.len() - i,
        {
            if lookup(table, self.fields[i].name.as_str()).is_none() {
                proof {
                    assert(!resolves(self.fields@[i as int], table@));
                }
                return Some(i);
            }
            i = i + 1;
        }
        None
    }

    /// Resolve every field against the program's attribute table and emit
    /// the record's full binding sequence. When some field's name is not an
    /// active attribute of the program, fail naming that field, emitting
    /// nothing.
    pub fn vertex_attrib_pointers(&self, gl: &mut GL, program: &Program) -> (r: Result<(), Fault>)
        requires
            self.wf(),
        ensures
            r is Ok <==> all_resolve(self.fields@, program.spec_attributes()),
            r is Ok ==> final(gl)@ == old(gl)@.append(
                layout_cmds(
                    self.fields@,
                    program.spec_attributes(),
                    record_size(self.fields@) as u32,
                ),
            ),
            r matches Err(f) ==> final(gl)@ == old(gl)@ && (f matches Fault::AttributeNotFound(
                n,
            ) && (exists|j: int|
                0 <= j < self.fields@.len() && !resolves(
                    #[trigger] self.fields@[j],
                    program.spec_attributes(),
                ) && n@ == self.fields@[j].name@)),
    {
        let table = program.attributes();
        // First resolve every name, so that a missing attribute emits nothing.
        match self.first_unresolved(table) {
            Some(i) => {
                return Err(Fault::AttributeNotFound(self.fields[i].name.clone()));
            },
            None => {},
        }
        let stride_bytes: usize = self.stride();
        let stride: u32 = stride_bytes as u32;
        let ghost pre = gl@;
        let ghost table_s = program.spec_attributes();
        proof {
            assert(self.fields@.take(0) =~= Seq::<FieldDesc>::empty());
            assert(pre.log + layout_cmds(self.fields@.take(0), table_s, stride) =~= pre.log);
            assert(gl@ =~= pre.append(layout_cmds(self.fields@.take(0), table_s, stride)));
        }
        let mut offset: usize = 0;
        let mut k: usize = 0;
        while k < self.fields.len()
            invariant
                k <= self.fields@.len(),
                self.wf(),
                table@ == table_s,
                table_s == program.spec_attributes(),
                all_resolve(self.fields@, table_s),
                stride == record_size(self.fields@) as u32,
                offset == field_offset(self.fields@, k as int),
                gl@ == pre.append(layout_cmds(self.fields@.take(k as int), table_s, stride)),
            decreases self.fields@.len() - k,
        {
            let loc = match lookup(table, self.fields[k].name.as_str()) {
                Some(l) => l,
                None => {
                    proof {
                        assert(resolves(self.fields@[k as int], table_s));
                    }
                    // unreachable: every field resolved above
                    return Err(Fault::AttributeNotFound(self.fields[k].name.clone()));
                },
            };
            proof {
                lemma_field_offset_monotonic(self.fields@, k as int, self.fields@.len() as int);
            }
            self.fields[k].ty.vertex_attrib_pointer(gl, stride, loc, offset as u32);
            match self.fields[k].divisor {
                Some(d) => {
                    gl.emit(Command::VertexAttribDivisor { location: loc, divisor: d });
                },
                None => {},
            }
            proof {
                let fs = self.fields@;
                let t = fs.take(k as int + 1);
                assert(t.drop_last() =~= fs.take(k as int));
                assert(t.last() == fs[k as int]);
                lemma_field_offset_prefix(t, fs, k as int);
                assert(layout_cmds(t, table_s, stride) == layout_cmds(fs.take(k as int), table_s, stride)
                    + field_cmds(
                    fs[k as int],
                    spec_lookup(table_s, fs[k as int].name@)->0,
                    stride,
                    field_offset(fs, k as int) as u32,
                ));
                assert(gl@.log =~= pre.log + layout_cmds(t, table_s, stride));
                assert(gl@ == pre.append(layout_cmds(t, table_s, stride)));
            }
            offset = offset + self.fields[k].ty.size();
            k = k + 1;
        }
        proof {
            assert(self.fields@.take(self.fields@.len() as int) =~= self.fields@);
        }
        Ok(())
    }
}

/// A vertex-data buffer paired with the schema of the records it holds, so
/// that associating it with a program needs no per-record code.
pub struct VertexBuffer {
    /// The buffer holding the packed records.
    pub buffer: crate::buffer::ArrayBuffer,
    /// The schema of one record.
    pub layout: VertexLayout,
}

/// The calls that associate one vertex buffer with the active program: bind
/// the buffer, emit its record's binding sequence, unbind the buffer.
pub open spec fn vbo_cmds(vb: VertexBuffer, table: Seq<ProgramInput>) -> Seq<Command> {
    seq![Command::BindBuffer(BufferKind::Array, Some(vb.buffer.vbo))] + layout_cmds(
        vb.layout.fields@,
        table,
        record_size(vb.layout.fields@) as u32,
    ) + seq![Command::BindBuffer(BufferKind::Array, None)]
}

/// The calls for a list of vertex buffers, in order.
pub open spec fn vbos_cmds(vbos: Seq<VertexBuffer>, table: Seq<ProgramInput>) -> Seq<Command>
    decreases vbos.len(),
{
    if vbos.len() == 0 {
        Seq::empty()
    } else {
        vbos_cmds(vbos.drop_last(), table) + vbo_cmds(vbos.last(), table)
    }
}

/// Every field of a prefix of a resolving record still resolves.
proof fn lemma_all_resolve_drop_last(fields: Seq<FieldDesc>, table: Seq<ProgramInput>)
    requires
        fields.len() > 0,
        all_resolve(fields, table),
    ensures
        all_resolve(fields.drop_last(), table),
{
    assert forall|i: int| 0 <= i < fields.drop_last().len() implies #[trigger] resolves(
        fields.drop_last()[i],
        table,
    ) by {
        assert(resolves(fields[i], table));
    }
}

/// Every field's pointer call in the binding sequence carries the stride
/// and the byte offset equal to the exact sum of the preceding fields'
/// sizes in declared order: offsets accumulate with no padding inserted.
pub proof fn lemma_field_offset_is_prefix_sum(
    fields: Seq<FieldDesc>,
    table: Seq<ProgramInput>,
    stride: u32,
    i: int,
)
    requires
        0 <= i < fields.len(),
        all_resolve(fields, table),
    ensures
        exists|k: int|
            0 <= k < layout_cmds(fields, table, stride).len() && layout_cmds(fields, table, stride)[k]
                == (Command::VertexAttribPointer {
                location: spec_lookup(table, fields[i].name@)->0,
                components: fields[i].ty.spec_components(),
                data_type: fields[i].ty.spec_data_type(),
                normalized: false,
                stride,
                offset: field_offset(fields, i) as u32,
            }),
    decreases fields.len(),
{
    let cmds = layout_cmds(fields, table, stride);
    let prefix = layout_cmds(fields.drop_last(), table, stride);
    if i == fields.len() - 1 {
        let k = prefix.len() as int + 1;
        assert(cmds[k] == (Command::VertexAttribPointer {
            location: spec_lookup(table, fields[i].name@)->0,
            components: fields[i].ty.spec_components(),
            data_type: fields[i].ty.spec_data_type(),
            normalized: false,
            stride,
            offset: field_offset(fields, i) as u32,
        }));
    } else {
        lemma_all_resolve_drop_last(fields, table);
        lemma_field_offset_is_prefix_sum(fields.drop_last(), table, stride, i);
        let k = choose|k: int|
            0 <= k < prefix.len() && prefix[k] == (Command::VertexAttribPointer {
                location: spec_lookup(table, fields.drop_last()[i].name@)->0,
                components: fields.drop_last()[i].ty.spec_components(),
                data_type: fields.drop_last()[i].ty.spec_data_type(),
                normalized: false,
                stride,
                offset: field_offset(fields.drop_last(), i) as u32,
            });
        lemma_field_offset_prefix(fields.drop_last(), fields, i);
        assert(fields.drop_last()[i] == fields[i]);
        assert(cmds[k] == prefix[k]);
    }
}

/// The locations enabled by a call sequence.
pub open spec fn enabled_locations(cmds: Seq<Command>) -> Set<u32> {
    Set::new(
        |l: u32|
            exists|k: int|
                0 <= k < cmds.len() && cmds[k] == Command::EnableVertexAttribArray(l),
    )
}

/// The locations the table assigns to the record's field names.
pub open spec fn record_locations(fields: Seq<FieldDesc>, table: Seq<ProgramInput>) -> Set<u32> {
    Set::new(
        |l: u32|
            exists|i: int|
                0 <= i < fields.len() && spec_lookup(table, fields[i].name@) == Some(l),
    )
}

/// Concatenation enables the union of what each part enables.
proof fn lemma_enabled_concat(a: Seq<Command>, b: Seq<Command>)
    ensures
        enabled_locations(a + b) == enabled_locations(a).union(enabled_locations(b)),
{
    assert forall|l: u32| #[trigger] enabled_locations(a + b).contains(l) implies enabled_locations(
        a,
    ).union(enabled_locations(b)).contains(l) by {
        let k = choose|k: int|
            0 <= k < (a + b).len() && (a + b)[k] == Command::EnableVertexAttribArray(l);
        if k < a.len() {
            assert(a[k] == Command::EnableVertexAttribArray(l));
        } else {
            assert(b[k - a.len()] == Command::EnableVertexAttribArray(l));
        }
    }
    assert forall|l: u32|
        enabled_locations(a).union(enabled_locations(b)).contains(l) implies #[trigger] enabled_locations(
        a + b,
    ).contains(l) by {
        if enabled_locations(a).contains(l) {
            let k = choose|k: int| 0 <= k < a.len() && a[k] == Command::EnableVertexAttribArray(l);
            assert((a + b)[k] == Command::EnableVertexAttribArray(l));
        } else {
            let k = choose|k: int| 0 <= k < b.len() && b[k] == Command::EnableVertexAttribArray(l);
            assert((a + b)[a.len() + k] == Command::EnableVertexAttribArray(l));
        }
    }
    assert(enabled_locations(a + b) =~= enabled_locations(a).union(enabled_locations(b)));
}

/// One field's calls enable exactly the field's location.
proof fn lemma_field_cmds_enabled(f: FieldDesc, loc: u32, stride: u32, offset: u32)
    ensures
        enabled_locations(field_cmds(f, loc, stride, offset)) == Set::<u32>::empty().insert(loc),
{
    let cmds = field_cmds(f, loc, stride, offset);
    assert(cmds[0] == Command::EnableVertexAttribArray(loc));
    assert forall|l: u32| #[trigger] enabled_locations(cmds).contains(l) implies l == loc by {
        let k = choose|k: int|
            0 <= k < cmds.len() && cmds[k] == Command::EnableVertexAttribArray(l);
        if k != 0 {
            assert(cmds[1] == (Command::VertexAttribPointer {
                location: loc,
                components: f.ty.spec_components(),
                data_type: f.ty.spec_data_type(),
                normalized: false,
                stride,
                offset,
            }));
            if k == 2 {
                assert(cmds[2] == divisor_cmds(f, loc)[0]);
            }
        }
    }
    assert(enabled_locations(cmds) =~= Set::<u32>::empty().insert(loc));
}

/// The set of attribute locations the binding sequence enables is exactly
/// the set of locations the program's table assigns to the record's field
/// names: every field present in both is bound, and nothing else is. (A
/// record with a field name absent from the table never reaches this
/// sequence: its bind fails.)
pub proof fn lemma_bound_locations(fields: Seq<FieldDesc>, table: Seq<ProgramInput>, stride: u32)
    requires
        all_resolve(fields, table),
    ensures
        enabled_locations(layout_cmds(fields, table, stride)) == record_locations(fields, table),
    decreases fields.len(),
{
    if fields.len() == 0 {
        assert forall|l: u32| !(#[trigger] enabled_locations(
            layout_cmds(fields, table, stride),
        ).contains(l)) by {}
        assert forall|l: u32| !(#[trigger] record_locations(fields, table).contains(l)) by {}
        assert(enabled_locations(layout_cmds(fields, table, stride)) =~= record_locations(
            fields,
            table,
        ));
    } else {
        let fs = fields.drop_last();
        let last = fields.last();
        let loc = spec_lookup(table, last.name@)->0;
        let off = field_offset(fields, fields.len() - 1) as u32;
        lemma_all_resolve_drop_last(fields, table);
        lemma_bound_locations(fs, table, stride);
        lemma_enabled_concat(layout_cmds(fs, table, stride), field_cmds(last, loc, stride, off));
        lemma_field_cmds_enabled(last, loc, stride, off);
        assert(resolves(fields[fields.len() - 1], table));
        assert forall|l: u32| #[trigger] record_locations(fields, table).contains(l) implies record_locations(
            fs,
            table,
        ).insert(loc).contains(l) by {
            let i = choose|i: int|
                0 <= i < fields.len() && spec_lookup(table, fields[i].name@) == Some(l);
            if i < fields.len() - 1 {
                assert(fs[i] == fields[i]);
                assert(record_locations(fs, table).contains(l));
            } else {
                assert(l == loc);
            }
        }
        assert forall|l: u32|
            record_locations(fs, table).insert(loc).contains(l) implies #[trigger] record_locations(
            fields,
            table,
        ).contains(l) by {
            if l == loc {
                assert(spec_lookup(table, fields[fields.len() - 1].name@) == Some(l));
            } else {
                let i = choose|i: int|
                    0 <= i < fs.len() && spec_lookup(table, fs[i].name@) == Some(l);
                assert(spec_lookup(table, fields[i].name@) == Some(l));
            }
        }
        assert(record_locations(fields, table) =~= record_locations(fs, table).insert(loc));
        assert(record_locations(fs, table).union(Set::<u32>::empty().insert(loc))
            =~= record_locations(fs, table).insert(loc));
        assert(enabled_locations(layout_cmds(fields, table, stride)) =~= record_locations(
            fields,
            table,
        ));
    }
}

} // verus!
