//! Vertex attributes of a mesh, and the layout of the buffer that holds
//! them.

use vstd::prelude::*;
use wgpu::{VertexFormat, VertexStepMode};

verus! {

#[verifier::external_type_specification]
#[verifier::external_body]
pub struct ExVertexFormat(VertexFormat);

#[verifier::external_type_specification]
#[verifier::external_body]
pub struct ExVertexStepMode(VertexStepMode);

/// A vertex attribute that a mesh may carry.
#[derive(Debug, Copy, Clone)]
pub struct MeshVertexAttribute {
    /// The friendly name of the attribute.
    pub name: &'static str,
    /// The id of the attribute, which no other attribute has. It also
    /// orders the attributes in a vertex buffer.
    pub id: MeshVertexAttributeId,
    /// The format of the attribute's data.
    pub format: VertexFormat,
}

/// The id of a vertex attribute.
#[derive(Debug, Copy, Clone, PartialEq, Eq, Structural, Ord, PartialOrd, Hash)]
pub struct MeshVertexAttributeId(usize);

impl MeshVertexAttributeId {
    /// The number that the id was made from.
    pub closed spec fn view(&self) -> usize {
        self.0
    }
}

impl MeshVertexAttribute {
    /// The attribute with this name, id number and format.
    pub fn new(name: &'static str, id: usize, format: VertexFormat) -> (r: Self)
        ensures
            r.name == name,
            r.id@ == id,
            r.format == format,
    {
        Self { name, id: MeshVertexAttributeId(id), format }
    }

    /// The attribute as a shader reads it at `shader_location`.
    pub fn at_shader_location(&self, shader_location: u32) -> (r: VertexAttributeDescriptor)
        ensures
            r.shader_location == shader_location,
            r.id == self.id,
            r.name == self.name,
    {
        VertexAttributeDescriptor::new(shader_location, self.id, self.name)
    }
}

impl From<MeshVertexAttribute> for MeshVertexAttributeId {
    fn from(attribute: MeshVertexAttribute) -> (r: Self) {
        attribute.id
    }
}

impl vstd::std_specs::convert::FromSpecImpl<MeshVertexAttribute> for MeshVertexAttributeId {
    open spec fn obeys_from_spec() -> bool {
        true
    }

    open spec fn from_spec(attribute: MeshVertexAttribute) -> Self {
        attribute.id
    }
}

/// One attribute of a vertex buffer: where its data lies in a vertex, and
/// where a shader reads it.
#[derive(Debug, Copy, Clone, PartialEq, Eq, Hash)]
pub struct VertexAttribute {
    /// The format of the attribute's data.
    pub format: VertexFormat,
    /// The offset of the data from the start of a vertex, in bytes.
    pub offset: u64,
    /// The location at which a shader reads the attribute.
    pub shader_location: u32,
}

/// The layout of a vertex buffer.
#[derive(Debug, PartialEq, Eq, Hash)]
pub struct VertexBufferLayout {
    /// The distance between two vertices, in bytes.
    pub array_stride: u64,
    /// Whether the buffer advances by vertex or by instance.
    pub step_mode: VertexStepMode,
    /// The attributes of a vertex.
    pub attributes: Vec<VertexAttribute>,
}

impl Clone for VertexBufferLayout {
    fn clone(&self) -> (r: Self)
        ensures
            r.array_stride == self.array_stride,
            r.step_mode == self.step_mode,
            r.attributes@ == self.attributes@,
    {
        let mut attributes: Vec<VertexAttribute> = Vec::with_capacity(self.attributes.len());
        let mut i: usize = 0;
        while i < self.attributes.len()
            invariant
                i <= self.attributes@.len(),
                attributes@ == self.attributes@.take(i as int),
            decreases self.attributes@.len() - i,
        {
            attributes.push(self.attributes[i]);
            assert(attributes@ =~= self.attributes@.take(i + 1));
            i += 1;
        }
        assert(attributes@ =~= self.attributes@);
        VertexBufferLayout {
            array_stride: self.array_stride,
            step_mode: self.step_mode,
            attributes,
        }
    }
}

/// A request for one attribute of a mesh at a shader location.
pub struct VertexAttributeDescriptor {
    /// The location at which the shader reads the attribute.
    pub shader_location: u32,
    /// The id of the attribute.
    pub id: MeshVertexAttributeId,
    /// The friendly name of the attribute.
    pub name: &'static str,
}

impl VertexAttributeDescriptor {
    /// The request for the attribute `id`, called `name`, at
    /// `shader_location`.
    pub fn new(shader_location: u32, id: MeshVertexAttributeId, name: &'static str) -> (r: Self)
        ensures
            r.shader_location == shader_location,
            r.id == id,
            r.name == name,
    {
        Self { shader_location, id, name }
    }
}

/// A mesh lacks an attribute that was asked of it.
#[derive(Debug)]
pub struct MissingVertexAttributeError {
    pub(crate) pipeline_type: Option<&'static str>,
    id: MeshVertexAttributeId,
    name: &'static str,
}

impl MissingVertexAttributeError {
    /// The kind of pipeline that asked, where it is known.
    pub closed spec fn spec_pipeline_type(&self) -> Option<&'static str> {
        self.pipeline_type
    }

    /// The id of the attribute that is missing.
    pub closed spec fn spec_id(&self) -> MeshVertexAttributeId {
        self.id
    }

    /// The friendly name of the attribute that is missing.
    pub closed spec fn spec_name(&self) -> &'static str {
        self.name
    }

    /// The kind of pipeline that asked, where it is known.
    pub fn pipeline_type(&self) -> (p: Option<&'static str>)
        ensures
            p == self.spec_pipeline_type(),
    {
        self.pipeline_type
    }

    /// The id of the attribute that is missing.
    pub fn id(&self) -> (id: MeshVertexAttributeId)
        ensures
            id == self.spec_id(),
    {
        self.id
    }

    /// The friendly name of the attribute that is missing.
    pub fn name(&self) -> (n: &'static str)
        ensures
            n == self.spec_name(),
    {
        self.name
    }
}

/// `i` is the first position at which `ids` holds `id`.
pub open spec fn is_position(
    ids: Seq<MeshVertexAttributeId>,
    id: MeshVertexAttributeId,
    i: int,
) -> bool {
    &&& 0 <= i < ids.len()
    &&& ids[i] == id
    &&& forall|j: int| 0 <= j < i ==> ids[j] != id
}

/// The attribute a shader gets for the request `descriptor`, where the mesh
/// holds the requested attribute at position `i` of its buffer: the data as
/// the buffer lays it out, at the location that the request names.
pub open spec fn resolved(
    layout: VertexBufferLayout,
    i: int,
    descriptor: VertexAttributeDescriptor,
) -> VertexAttribute {
    VertexAttribute {
        format: layout.attributes@[i].format,
        offset: layout.attributes@[i].offset,
        shader_location: descriptor.shader_location,
    }
}

/// `attribute` is what a shader gets for the request `descriptor` from a
/// mesh whose buffer holds the attributes `ids`, laid out as `layout` says:
/// the mesh holds the requested attribute, and `attribute` is its data at
/// its first position, at the requested location.
pub open spec fn answers(
    ids: Seq<MeshVertexAttributeId>,
    layout: VertexBufferLayout,
    descriptor: VertexAttributeDescriptor,
    attribute: VertexAttribute,
) -> bool {
    exists|i: int| #[trigger]
        is_position(ids, descriptor.id, i) && attribute == resolved(layout, i, descriptor)
}

/// The first position at which `ids` holds `id`, if it holds it at all.
pub fn position(ids: &Vec<MeshVertexAttributeId>, id: MeshVertexAttributeId) -> (r: Option<usize>)
    ensures
        match r {
            Some(i) => is_position(ids@, id, i as int),
            None => !ids@.contains(id),
        },
{
    let mut i: usize = 0;
    while i < ids.len()
        invariant
            i <= ids.len(),
            forall|j: int| 0 <= j < i ==> ids@[j] != id,
        decreases ids.len() - i,
    {
        if ids[i] == id {
            return Some(i);
        }
        i += 1;
    }
    None
}

/// The vertex buffer of a mesh: the attributes that it carries, by id, and
/// for each, in the same order, how the buffer lays it out.
#[derive(Debug, PartialEq, Eq, Hash)]
pub struct InnerMeshVertexBufferLayout {
    attribute_ids: Vec<MeshVertexAttributeId>,
    layout: VertexBufferLayout,
}

impl Clone for InnerMeshVertexBufferLayout {
    fn clone(&self) -> (r: Self)
        ensures
            r.spec_attribute_ids() == self.spec_attribute_ids(),
            r.spec_layout().array_stride == self.spec_layout().array_stride,
            r.spec_layout().step_mode == self.spec_layout().step_mode,
            r.spec_layout().attributes@ == self.spec_layout().attributes@,
    {
        proof {
            use_type_invariant(self);
        }
        let mut attribute_ids: Vec<MeshVertexAttributeId> = Vec::with_capacity(
            self.attribute_ids.len(),
        );
        let mut i: usize = 0;
        while i < self.attribute_ids.len()
            invariant
                i <= self.attribute_ids@.len(),
                attribute_ids@ == self.attribute_ids@.take(i as int),
            decreases self.attribute_ids@.len() - i,
        {
            attribute_ids.push(self.attribute_ids[i]);
            assert(attribute_ids@ =~= self.attribute_ids@.take(i + 1));
            i += 1;
        }
        assert(attribute_ids@ =~= self.attribute_ids@);
        InnerMeshVertexBufferLayout { attribute_ids, layout: self.layout.clone() }
    }
}

impl InnerMeshVertexBufferLayout {
    #[verifier::type_invariant]
    spec fn in_step(&self) -> bool {
        self.attribute_ids@.len() == self.layout.attributes@.len()
    }

    /// The ids of the attributes, in buffer order.
    pub closed spec fn spec_attribute_ids(&self) -> Seq<MeshVertexAttributeId> {
        self.attribute_ids@
    }

    /// The layout of the buffer.
    pub closed spec fn spec_layout(&self) -> VertexBufferLayout {
        self.layout
    }

    /// The buffer that holds the attributes `attribute_ids`, laid out as
    /// `layout` says: one attribute of the layout for each id. Without that
    /// there is no such buffer.
    pub fn new(attribute_ids: Vec<MeshVertexAttributeId>, layout: VertexBufferLayout) -> (r:
        Option<Self>)
        ensures
            r is Some <==> attribute_ids@.len() == layout.attributes@.len(),
            r is Some ==> r->Some_0.spec_attribute_ids() == attribute_ids@ && r->Some_0.spec_layout()
                == layout,
    {
        if attribute_ids.len() == layout.attributes.len() {
            Some(Self { attribute_ids, layout })
        } else {
            None
        }
    }

    /// Whether the mesh carries the attribute `attribute_id`.
    pub fn contains(&self, attribute_id: MeshVertexAttributeId) -> (b: bool)
        ensures
            b == self.spec_attribute_ids().contains(attribute_id),
    {
        match position(&self.attribute_ids, attribute_id) {
            Some(i) => {
                assert(self.attribute_ids@[i as int] == attribute_id);
                true
            },
            None => false,
        }
    }

    /// The ids of the attributes, in buffer order.
    pub fn attribute_ids(&self) -> (ids: &[MeshVertexAttributeId])
        ensures
            ids@ == self.spec_attribute_ids(),
    {
        self.attribute_ids.as_slice()
    }

    /// The layout of the buffer.
    pub fn layout(&self) -> (l: &VertexBufferLayout)
        ensures
            *l == self.spec_layout(),
            l.attributes@.len() == self.spec_attribute_ids().len(),
    {
        proof {
            use_type_invariant(self);
        }
        &self.layout
    }

    /// The layout that a shader sees which asks for the attributes
    /// `attribute_descriptors`: for each request, in order, the mesh's
    /// attribute of that id at the requested location, with the stride and
    /// step mode of the mesh's buffer. The first request for an attribute
    /// that the mesh does not carry makes the call fail, and the error names
    /// that attribute.
    pub fn get_layout(&self, attribute_descriptors: &[VertexAttributeDescriptor]) -> (r: Result<
        VertexBufferLayout,
        MissingVertexAttributeError,
    >)
        ensures
            match r {
                Ok(l) => {
                    &&& l.array_stride == self.spec_layout().array_stride
                    &&& l.step_mode == self.spec_layout().step_mode
                    &&& l.attributes@.len() == attribute_descriptors@.len()
                    &&& forall|k: int|
                        0 <= k < attribute_descriptors@.len() ==> #[trigger] answers(
                            self.spec_attribute_ids(),
                            self.spec_layout(),
                            attribute_descriptors@[k],
                            l.attributes@[k],
                        )
                },
                Err(e) => exists|k: int|
                    #![trigger attribute_descriptors@[k]]
                    {
                        &&& 0 <= k < attribute_descriptors@.len()
                        &&& !self.spec_attribute_ids().contains(attribute_descriptors@[k].id)
                        &&& forall|j: int|
                            0 <= j < k ==> self.spec_attribute_ids().contains(
                                #[trigger] attribute_descriptors@[j].id,
                            )
                        &&& e.spec_id() == attribute_descriptors@[k].id
                        &&& e.spec_name() == attribute_descriptors@[k].name
                        &&& e.spec_pipeline_type() is None
                    },
            },
    {
        proof {
            use_type_invariant(self);
        }
        let mut attributes: Vec<VertexAttribute> = Vec::with_capacity(attribute_descriptors.len());
        let mut k: usize = 0;
        while k < attribute_descriptors.len()
            invariant
                k <= attribute_descriptors@.len(),
                attributes@.len() == k,
                self.attribute_ids@.len() == self.layout.attributes@.len(),
                forall|m: int|
                    0 <= m < k ==> #[trigger] answers(
                        self.spec_attribute_ids(),
                        self.spec_layout(),
                        attribute_descriptors@[m],
                        attributes@[m],
                    ),
                forall|j: int|
                    0 <= j < k ==> self.spec_attribute_ids().contains(
                        #[trigger] attribute_descriptors@[j].id,
                    ),
            decreases attribute_descriptors@.len() - k,
        {
            let attribute_descriptor = &attribute_descriptors[k];
            match position(&self.attribute_ids, attribute_descriptor.id) {
                Some(index) => {
                    let layout_attribute = &self.layout.attributes[index];
                    let ghost before = attributes@;
                    attributes.push(
                        VertexAttribute {
                            format: layout_attribute.format,
                            offset: layout_attribute.offset,
                            shader_location: attribute_descriptor.shader_location,
                        },
                    );
                    assert(is_position(
                        self.spec_attribute_ids(),
                        attribute_descriptors@[k as int].id,
                        index as int,
                    ));
                    assert(self.spec_attribute_ids()[index as int]
                        == attribute_descriptors@[k as int].id);
                    assert forall|m: int| 0 <= m < k + 1 implies #[trigger] answers(
                        self.spec_attribute_ids(),
                        self.spec_layout(),
                        attribute_descriptors@[m],
                        attributes@[m],
                    ) by {
                        if m < k {
                            assert(attributes@[m] == before[m]);
                            assert(answers(
                                self.spec_attribute_ids(),
                                self.spec_layout(),
                                attribute_descriptors@[m],
                                before[m],
                            ));
                        }
                    }
                },
                None => {
                    return Err(
                        MissingVertexAttributeError {
                            id: attribute_descriptor.id,
                            name: attribute_descriptor.name,
                            pipeline_type: None,
                        },
                    );
                },
            }
            k += 1;
        }
        Ok(
            VertexBufferLayout {
                array_stride: self.layout.array_stride,
                step_mode: self.layout.step_mode,
                attributes,
            },
        )
    }
}

} // verus!
