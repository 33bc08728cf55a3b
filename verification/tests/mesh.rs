use piet_wgpu::mesh::{
    position, InnerMeshVertexBufferLayout, MeshVertexAttribute, MeshVertexAttributeId,
    VertexAttribute, VertexAttributeDescriptor, VertexBufferLayout,
};
use wgpu::{VertexFormat, VertexStepMode};

fn position_attribute() -> MeshVertexAttribute {
    MeshVertexAttribute::new("Vertex_Position", 0, VertexFormat::Float32x3)
}

fn normal_attribute() -> MeshVertexAttribute {
    MeshVertexAttribute::new("Vertex_Normal", 1, VertexFormat::Float32x3)
}

fn uv_attribute() -> MeshVertexAttribute {
    MeshVertexAttribute::new("Vertex_Uv", 2, VertexFormat::Float32x2)
}

fn color_attribute() -> MeshVertexAttribute {
    MeshVertexAttribute::new("Vertex_Color", 5, VertexFormat::Float32x4)
}

fn mesh_layout() -> InnerMeshVertexBufferLayout {
    let ids = vec![
        position_attribute().id,
        normal_attribute().id,
        uv_attribute().id,
    ];
    let layout = VertexBufferLayout {
        array_stride: 32,
        step_mode: VertexStepMode::Vertex,
        attributes: vec![
            VertexAttribute {
                format: VertexFormat::Float32x3,
                offset: 0,
                shader_location: 0,
            },
            VertexAttribute {
                format: VertexFormat::Float32x3,
                offset: 12,
                shader_location: 1,
            },
            VertexAttribute {
                format: VertexFormat::Float32x2,
                offset: 24,
                shader_location: 2,
            },
        ],
    };
    match InnerMeshVertexBufferLayout::new(ids, layout) {
        Some(l) => l,
        None => panic!("ids and attributes differ in number"),
    }
}

#[test]
fn attribute_new_keeps_its_parts() {
    let a = MeshVertexAttribute::new("Vertex_Uv", 2, VertexFormat::Float32x2);
    assert_eq!(a.name, "Vertex_Uv");
    assert_eq!(a.format, VertexFormat::Float32x2);
    assert_eq!(a.id, uv_attribute().id);
    assert_ne!(a.id, normal_attribute().id);
}

#[test]
fn attribute_id_from_attribute() {
    let id: MeshVertexAttributeId = MeshVertexAttributeId::from(uv_attribute());
    assert_eq!(id, uv_attribute().id);
}

#[test]
fn at_shader_location_describes_the_attribute() {
    let d = normal_attribute().at_shader_location(7);
    assert_eq!(d.shader_location, 7);
    assert_eq!(d.id, normal_attribute().id);
    assert_eq!(d.name, "Vertex_Normal");
}

#[test]
fn descriptor_new_keeps_its_parts() {
    let d = VertexAttributeDescriptor::new(4, color_attribute().id, "Vertex_Color");
    assert_eq!(d.shader_location, 4);
    assert_eq!(d.id, color_attribute().id);
    assert_eq!(d.name, "Vertex_Color");
}

#[test]
fn position_finds_the_first_occurrence() {
    let ids = vec![
        uv_attribute().id,
        position_attribute().id,
        uv_attribute().id,
    ];
    assert_eq!(position(&ids, uv_attribute().id), Some(0));
    assert_eq!(position(&ids, position_attribute().id), Some(1));
    assert_eq!(position(&ids, normal_attribute().id), None);
    assert_eq!(position(&vec![], normal_attribute().id), None);
}

#[test]
fn layout_new_wants_one_attribute_for_each_id() {
    let layout = VertexBufferLayout {
        array_stride: 12,
        step_mode: VertexStepMode::Vertex,
        attributes: vec![],
    };
    assert!(InnerMeshVertexBufferLayout::new(vec![position_attribute().id], layout).is_none());
    let layout = VertexBufferLayout {
        array_stride: 0,
        step_mode: VertexStepMode::Instance,
        attributes: vec![],
    };
    assert!(InnerMeshVertexBufferLayout::new(vec![], layout).is_some());
}

#[test]
fn contains_tells_the_attributes_of_the_mesh() {
    let mesh = mesh_layout();
    assert!(mesh.contains(position_attribute().id));
    assert!(mesh.contains(normal_attribute().id));
    assert!(mesh.contains(uv_attribute().id));
    assert!(!mesh.contains(color_attribute().id));
}

#[test]
fn attribute_ids_and_layout_are_handed_out() {
    let mesh = mesh_layout();
    assert_eq!(
        mesh.attribute_ids(),
        &[
            position_attribute().id,
            normal_attribute().id,
            uv_attribute().id
        ]
    );
    assert_eq!(mesh.layout().array_stride, 32);
    assert_eq!(mesh.layout().step_mode, VertexStepMode::Vertex);
    assert_eq!(mesh.layout().attributes.len(), 3);
    assert_eq!(mesh.layout().attributes[1].offset, 12);
}

#[test]
fn get_layout_maps_each_request_to_the_mesh_attribute() {
    let mesh = mesh_layout();
    let requests = [
        uv_attribute().at_shader_location(0),
        position_attribute().at_shader_location(3),
    ];
    let layout = match mesh.get_layout(&requests) {
        Ok(l) => l,
        Err(e) => panic!("missing {:?}", e),
    };
    assert_eq!(layout.array_stride, 32);
    assert_eq!(layout.step_mode, VertexStepMode::Vertex);
    assert_eq!(
        layout.attributes,
        vec![
            VertexAttribute {
                format: VertexFormat::Float32x2,
                offset: 24,
                shader_location: 0,
            },
            VertexAttribute {
                format: VertexFormat::Float32x3,
                offset: 0,
                shader_location: 3,
            },
        ]
    );
}

#[test]
fn get_layout_may_ask_for_an_attribute_twice() {
    let mesh = mesh_layout();
    let requests = [
        normal_attribute().at_shader_location(1),
        normal_attribute().at_shader_location(2),
    ];
    let layout = match mesh.get_layout(&requests) {
        Ok(l) => l,
        Err(e) => panic!("missing {:?}", e),
    };
    assert_eq!(layout.attributes.len(), 2);
    assert_eq!(layout.attributes[0].offset, 12);
    assert_eq!(layout.attributes[0].shader_location, 1);
    assert_eq!(layout.attributes[1].offset, 12);
    assert_eq!(layout.attributes[1].shader_location, 2);
}

#[test]
fn get_layout_of_no_request_has_no_attribute() {
    let mesh = mesh_layout();
    let layout = match mesh.get_layout(&[]) {
        Ok(l) => l,
        Err(e) => panic!("missing {:?}", e),
    };
    assert_eq!(layout.array_stride, 32);
    assert!(layout.attributes.is_empty());
}

#[test]
fn get_layout_names_the_first_missing_attribute() {
    let mesh = mesh_layout();
    let tangent = MeshVertexAttribute::new("Vertex_Tangent", 9, VertexFormat::Float32x4);
    let requests = [
        position_attribute().at_shader_location(0),
        color_attribute().at_shader_location(1),
        tangent.at_shader_location(2),
    ];
    let error = match mesh.get_layout(&requests) {
        Ok(_) => panic!("the mesh has no color"),
        Err(e) => e,
    };
    assert_eq!(error.id(), color_attribute().id);
    assert_eq!(error.name(), "Vertex_Color");
    assert_eq!(error.pipeline_type(), None);
}

#[test]
fn buffer_layout_clone_is_equal() {
    let mesh = mesh_layout();
    let copy = mesh.layout().clone();
    assert_eq!(copy.array_stride, 32);
    assert_eq!(copy.step_mode, VertexStepMode::Vertex);
    assert_eq!(copy.attributes, mesh.layout().attributes);
}

#[test]
fn mesh_layout_clone_is_equal() {
    let mesh = mesh_layout();
    let copy = mesh.clone();
    assert_eq!(copy, mesh);
    assert_eq!(copy.attribute_ids(), mesh.attribute_ids());
    assert_eq!(copy.layout(), mesh.layout());
}

#[test]
fn attribute_ids_are_ordered_by_their_number() {
    assert!(position_attribute().id < normal_attribute().id);
    assert!(normal_attribute().id < color_attribute().id);
    let mut ids = vec![
        color_attribute().id,
        position_attribute().id,
        uv_attribute().id,
    ];
    ids.sort();
    assert_eq!(
        ids,
        vec![
            position_attribute().id,
            uv_attribute().id,
            color_attribute().id
        ]
    );
}
