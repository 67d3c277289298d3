//! How the vertex buffer and the instance buffer are laid out for the
//! vertex stage.
//!
//! A buffer holds records of tightly packed attributes: each attribute
//! begins where the one before it ends, and the stride is the size of them
//! all. Shader locations count up from the first one given.

use vstd::prelude::*;

verus! {

/// The most attributes a buffer layout may have.
pub const MAX_ATTRIBUTES: usize = 32;

/// The shader location of the first per-vertex attribute.
pub const VERTEX_FIRST_LOCATION: u32 = 0;

/// The shader location of the first per-instance attribute.
pub const INSTANCE_FIRST_LOCATION: u32 = 2;

/// The number of indices of the quad that every instance draws.
pub const QUAD_INDEX_COUNT: u32 = 6;

/// The type of a vertex attribute: one, two or three binary32 values.
#[derive(Clone, Copy, Debug, PartialEq, Eq, Structural)]
pub enum AttributeFormat {
    Scalar,
    Pair,
    Triple,
}

/// Whether a buffer advances per vertex or per instance.
#[derive(Clone, Copy, Debug, PartialEq, Eq, Structural)]
pub enum StepMode {
    Vertex,
    Instance,
}

/// One attribute of a buffer layout.
#[derive(Clone, Copy, Debug, PartialEq, Eq, Structural)]
pub struct VertexAttribute {
    /// Where the attribute begins in a record, in bytes.
    pub offset: u64,
    pub shader_location: u32,
    pub format: AttributeFormat,
}

/// The layout of one buffer.
#[derive(Debug)]
pub struct BufferLayout {
    /// The size of a record, in bytes.
    pub array_stride: u64,
    pub step_mode: StepMode,
    pub attributes: Vec<VertexAttribute>,
}

impl AttributeFormat {
    /// The size of an attribute of this format, in bytes.
    pub open spec fn spec_size(self) -> nat {
        match self {
            AttributeFormat::Scalar => 4,
            AttributeFormat::Pair => 8,
            AttributeFormat::Triple => 12,
        }
    }

    /// The size of an attribute of this format, in bytes.
    pub fn size(self) -> (bytes: u64)
        ensures
            bytes == self.spec_size(),
    {
        match self {
            AttributeFormat::Scalar => 4,
            AttributeFormat::Pair => 8,
            AttributeFormat::Triple => 12,
        }
    }
}

/// The size of the first `count` of `formats` together, in bytes.
pub open spec fn packed_size(formats: Seq<AttributeFormat>, count: int) -> nat
    decreases count,
{
    if count <= 0 {
        0
    } else {
        packed_size(formats, count - 1) + formats[count - 1].spec_size()
    }
}

/// The attribute at position `i` of a packed layout of `formats`.
pub open spec fn packed_attribute(formats: Seq<AttributeFormat>, first_location: u32, i: int)
    -> VertexAttribute {
    VertexAttribute {
        offset: packed_size(formats, i) as u64,
        shader_location: (first_location + i) as u32,
        format: formats[i],
    }
}

/// The attributes of a packed layout of `formats`.
pub open spec fn packed(formats: Seq<AttributeFormat>, first_location: u32) -> Seq<VertexAttribute> {
    Seq::new(formats.len(), |i: int| packed_attribute(formats, first_location, i))
}

/// The packed size grows with the count, by at most twelve bytes a step.
pub proof fn lemma_packed_size_bounds(formats: Seq<AttributeFormat>, i: int, j: int)
    requires
        0 <= i <= j,
    ensures
        packed_size(formats, i) <= packed_size(formats, j) <= packed_size(formats, i) + 12 * (j
            - i),
    decreases j - i,
{
    if i < j {
        lemma_packed_size_bounds(formats, i, j - 1);
    }
}

/// In a packed layout no two attributes overlap, and every attribute ends
/// within the stride: the later of two attributes begins where the earlier
/// one ends, or after.
pub proof fn lemma_packed_disjoint(formats: Seq<AttributeFormat>, i: int, j: int)
    requires
        0 <= i < j < formats.len(),
    ensures
        packed_size(formats, i) + formats[i].spec_size() <= packed_size(formats, j),
        packed_size(formats, j) + formats[j].spec_size() <= packed_size(
            formats,
            formats.len() as int,
        ),
    decreases j - i,
{
    lemma_packed_size_bounds(formats, i + 1, j);
    lemma_packed_size_bounds(formats, j + 1, formats.len() as int);
}

/// Whether `count` attributes can be laid out from `first_location` on.
pub open spec fn packable(count: int, first_location: u32) -> bool {
    count <= MAX_ATTRIBUTES && first_location + count <= u32::MAX
}

/// Lays out attributes that are known to be few enough.
fn pack_bounded(formats: &Vec<AttributeFormat>, first_location: u32, step_mode: StepMode) -> (layout:
    BufferLayout)
    requires
        packable(formats@.len() as int, first_location),
    ensures
        layout.attributes@ == packed(formats@, first_location),
        layout.array_stride == packed_size(formats@, formats@.len() as int),
        layout.step_mode == step_mode,
{
    let mut attributes: Vec<VertexAttribute> = Vec::new();
    let mut offset: u64 = 0;
    let mut i: usize = 0;
    while i < formats.len()
        invariant
            i <= formats.len(),
            packable(formats@.len() as int, first_location),
            offset == packed_size(formats@, i as int),
            offset <= 12 * i,
            attributes@.len() == i,
            forall|j: int|
                0 <= j < i ==> attributes@[j] == packed_attribute(formats@, first_location, j),
        decreases formats.len() - i,
    {
        let format = formats[i];
        attributes.push(
            VertexAttribute { offset, shader_location: first_location + (i as u32), format },
        );
        offset = offset + format.size();
        i += 1;
    }
    assert(attributes@ =~= packed(formats@, first_location));
    BufferLayout { array_stride: offset, step_mode, attributes }
}

/// Lays out attributes of the given formats, tightly packed, at shader
/// locations counting up from `first_location`. There is no layout for more
/// than `MAX_ATTRIBUTES` attributes, or where the locations would run past
/// the largest location.
pub fn pack(formats: &Vec<AttributeFormat>, first_location: u32, step_mode: StepMode) -> (layout:
    Option<BufferLayout>)
    ensures
        layout.is_some() == packable(formats@.len() as int, first_location),
        layout matches Some(l) ==> l.attributes@ == packed(formats@, first_location)
            && l.array_stride == packed_size(formats@, formats@.len() as int) && l.step_mode
            == step_mode,
{
    if formats.len() > MAX_ATTRIBUTES {
        return None;
    }
    let room: u32 = u32::MAX - first_location;
    if (room as usize) < formats.len() {
        return None;
    }
    Some(pack_bounded(formats, first_location, step_mode))
}

/// The formats of a vertex: a position of three values and texture
/// coordinates of two.
pub open spec fn vertex_formats() -> Seq<AttributeFormat> {
    seq![AttributeFormat::Triple, AttributeFormat::Pair]
}

/// The formats of an instance record, field by field: position, velocity,
/// scale, rotation, texture offset.
pub open spec fn instance_formats() -> Seq<AttributeFormat> {
    seq![
        AttributeFormat::Pair,
        AttributeFormat::Pair,
        AttributeFormat::Scalar,
        AttributeFormat::Scalar,
        AttributeFormat::Pair,
    ]
}

/// The packed sizes of the instance record's fields, one after the other.
proof fn lemma_instance_sizes()
    ensures
        packed_size(instance_formats(), 0) == 0,
        packed_size(instance_formats(), 1) == 8,
        packed_size(instance_formats(), 2) == 16,
        packed_size(instance_formats(), 3) == 20,
        packed_size(instance_formats(), 4) == 24,
        packed_size(instance_formats(), 5) == 32,
{
    reveal_with_fuel(packed_size, 6);
}

/// The packed sizes of the vertex's fields, one after the other.
proof fn lemma_vertex_sizes()
    ensures
        packed_size(vertex_formats(), 0) == 0,
        packed_size(vertex_formats(), 1) == 12,
        packed_size(vertex_formats(), 2) == 20,
{
    reveal_with_fuel(packed_size, 3);
}

/// The layout of the vertex buffer: records of twenty bytes, the position
/// at location 0 and the texture coordinates at location 1.
pub fn vertex_layout() -> (layout: BufferLayout)
    ensures
        layout.step_mode == StepMode::Vertex,
        layout.array_stride == 20,
        layout.attributes@ == packed(vertex_formats(), VERTEX_FIRST_LOCATION),
        layout.attributes@ == seq![
            VertexAttribute { offset: 0, shader_location: 0, format: AttributeFormat::Triple },
            VertexAttribute { offset: 12, shader_location: 1, format: AttributeFormat::Pair },
        ],
{
    let mut formats: Vec<AttributeFormat> = Vec::new();
    formats.push(AttributeFormat::Triple);
    formats.push(AttributeFormat::Pair);
    proof {
        assert(formats@ =~= vertex_formats());
        lemma_vertex_sizes();
    }
    let layout = pack_bounded(&formats, VERTEX_FIRST_LOCATION, StepMode::Vertex);
    assert(layout.attributes@ =~= seq![
        VertexAttribute { offset: 0, shader_location: 0, format: AttributeFormat::Triple },
        VertexAttribute { offset: 12, shader_location: 1, format: AttributeFormat::Pair },
    ]);
    layout
}

/// The layout of the instance buffer: records of thirty-two bytes, with
/// position, velocity, scale, rotation and texture offset at locations 2
/// to 6.
pub fn instance_layout() -> (layout: BufferLayout)
    ensures
        layout.step_mode == StepMode::Instance,
        layout.array_stride == 32,
        layout.attributes@ == packed(instance_formats(), INSTANCE_FIRST_LOCATION),
        layout.attributes@ == seq![
            VertexAttribute { offset: 0, shader_location: 2, format: AttributeFormat::Pair },
            VertexAttribute { offset: 8, shader_location: 3, format: AttributeFormat::Pair },
            VertexAttribute { offset: 16, shader_location: 4, format: AttributeFormat::Scalar },
            VertexAttribute { offset: 20, shader_location: 5, format: AttributeFormat::Scalar },
            VertexAttribute { offset: 24, shader_location: 6, format: AttributeFormat::Pair },
        ],
{
    let mut formats: Vec<AttributeFormat> = Vec::new();
    formats.push(AttributeFormat::Pair);
    formats.push(AttributeFormat::Pair);
    formats.push(AttributeFormat::Scalar);
    formats.push(AttributeFormat::Scalar);
    formats.push(AttributeFormat::Pair);
    proof {
        assert(formats@ =~= instance_formats());
        lemma_instance_sizes();
    }
    let layout = pack_bounded(&formats, INSTANCE_FIRST_LOCATION, StepMode::Instance);
    assert(layout.attributes@ =~= seq![
        VertexAttribute { offset: 0, shader_location: 2, format: AttributeFormat::Pair },
        VertexAttribute { offset: 8, shader_location: 3, format: AttributeFormat::Pair },
        VertexAttribute { offset: 16, shader_location: 4, format: AttributeFormat::Scalar },
        VertexAttribute { offset: 20, shader_location: 5, format: AttributeFormat::Scalar },
        VertexAttribute { offset: 24, shader_location: 6, format: AttributeFormat::Pair },
    ]);
    layout
}

} // verus!
