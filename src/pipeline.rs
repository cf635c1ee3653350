use vstd::prelude::*;

verus! {

/// The format of one vertex attribute: two, three or four 32-bit floats.
#[derive(Debug, Clone, Copy, PartialEq, Eq, Structural)]
pub enum VertexFormat {
    Float2,
    Float3,
    Float4,
}

/// The size in bytes of an attribute of format `f`.
pub open spec fn format_size(f: VertexFormat) -> nat {
    match f {
        VertexFormat::Float2 => 8,
        VertexFormat::Float3 => 12,
        VertexFormat::Float4 => 16,
    }
}

/// The bytes taken by the attributes `formats`, packed one after another.
pub open spec fn packed_size(formats: Seq<VertexFormat>) -> nat
    decreases formats.len(),
{
    if formats.len() == 0 {
        0
    } else {
        packed_size(formats.drop_last()) + format_size(formats.last())
    }
}

impl VertexFormat {
    pub fn size(&self) -> (r: u64)
        ensures
            r == format_size(*self),
    {
        match self {
            VertexFormat::Float2 => 8,
            VertexFormat::Float3 => 12,
            VertexFormat::Float4 => 16,
        }
    }
}

/// One attribute of a vertex buffer layout.
#[derive(Debug, Clone, Copy, PartialEq, Eq, Structural)]
pub struct VertexAttribute {
    pub format: VertexFormat,
    pub offset: u64,
    pub shader_location: u32,
}

/// The layout of a vertex whose attributes have `formats`, in order: the
/// `i`-th attribute is read at shader location `i`, at the offset where the
/// attributes before it end.
pub fn packed_attributes(formats: &Vec<VertexFormat>) -> (r: Vec<VertexAttribute>)
    requires
        formats.len() < u32::MAX,
    ensures
        r.len() == formats.len(),
        forall|i: int|
            0 <= i < r.len() ==> {
                &&& (#[trigger] r@[i]).format == formats@[i]
                &&& r@[i].offset == packed_size(formats@.take(i))
                &&& r@[i].shader_location == i
            },
{
    let mut r: Vec<VertexAttribute> = Vec::new();
    let mut offset: u64 = 0;
    let mut i: usize = 0;
    while i < formats.len()
        invariant
            i <= formats.len(),
            formats.len() < u32::MAX,
            r.len() == i,
            offset == packed_size(formats@.take(i as int)),
            offset <= 16 * i,
            forall|j: int|
                0 <= j < i ==> {
                    &&& (#[trigger] r@[j]).format == formats@[j]
                    &&& r@[j].offset == packed_size(formats@.take(j))
                    &&& r@[j].shader_location == j
                },
        decreases formats.len() - i,
    {
        let f = formats[i];
        r.push(VertexAttribute { format: f, offset, shader_location: i as u32 });
        proof {
            assert(formats@.take(i + 1).drop_last() =~= formats@.take(i as int));
            assert(formats@.take(i + 1).last() == f);
        }
        offset = offset + f.size();
        i = i + 1;
    }
    r
}

/// The formats of a mesh vertex as the unlit pipeline reads it: position,
/// normal, texture coordinate and tangent.
pub open spec fn unlit_formats() -> Seq<VertexFormat> {
    seq![VertexFormat::Float3, VertexFormat::Float3, VertexFormat::Float2, VertexFormat::Float4]
}

/// The unlit pipeline's description.
#[derive(Debug, Default)]
pub struct UnlitPipelineDesc;

impl UnlitPipelineDesc {
    /// The vertex attributes that the unlit pipeline reads, packed from the
    /// start of the vertex: offsets 0, 12, 24 and 32.
    pub fn vertex_attributes(&self) -> (r: Vec<VertexAttribute>)
        ensures
            r.len() == 4,
            forall|i: int|
                0 <= i < 4 ==> (#[trigger] r@[i]).format == unlit_formats()[i]
                    && r@[i].shader_location == i,
            r@[0].offset == 0,
            r@[1].offset == 12,
            r@[2].offset == 24,
            r@[3].offset == 32,
    {
        let formats: Vec<VertexFormat> = vec![
            VertexFormat::Float3,
            VertexFormat::Float3,
            VertexFormat::Float2,
            VertexFormat::Float4,
        ];
        assert(formats@ =~= unlit_formats());
        let r = packed_attributes(&formats);
        proof {
            let s = unlit_formats();
            assert(s.take(0).len() == 0);
            assert(s.take(1).drop_last() =~= s.take(0));
            assert(s.take(2).drop_last() =~= s.take(1));
            assert(s.take(3).drop_last() =~= s.take(2));
            reveal_with_fuel(packed_size, 4);
            assert(packed_size(s.take(1)) == 12);
            assert(packed_size(s.take(2)) == 24);
            assert(packed_size(s.take(3)) == 32);
        }
        r
    }
}

} // verus!
