use planet_controller::gravity::{GravityField, GravityFieldType};
use planet_controller::level::{
    gravity_field_plan, plan_level, plan_node, rigid_body_plan, spawnable_primitives,
    FieldCollider, LevelAction, LevelError, LevelFailure, MeshLookup, NodeAction, NodeExtras,
    NodeSource,
};

fn empty() -> NodeExtras {
    NodeExtras {
        gravity_field: None,
        gravity_field_priority: None,
        gravity_field_radius: None,
        gravity_field_height: None,
        rigid_body: None,
    }
}

fn bits(x: f32) -> u32 {
    x.to_bits()
}

#[test]
fn no_extras_nothing() {
    assert_eq!(gravity_field_plan(&empty()), Ok(None));
    let plan = plan_node(&NodeSource::Ready { extras: empty(), mesh: MeshLookup::NoMesh });
    assert!(plan.actions.is_empty());
    assert_eq!(plan.error, None);
}

#[test]
fn sphere_field() {
    let extras = NodeExtras {
        gravity_field: Some(0),
        gravity_field_priority: Some(7),
        gravity_field_radius: Some(bits(12.5)),
        ..empty()
    };
    assert_eq!(
        gravity_field_plan(&extras),
        Ok(Some(NodeAction::SpawnGravityField {
            field: GravityField { field_type: GravityFieldType::Sphere, priority: 7 },
            collider: FieldCollider::Sphere { radius: bits(12.5) },
        }))
    );
}

#[test]
fn sphere_field_errors_in_order() {
    let no_radius = NodeExtras { gravity_field: Some(0), ..empty() };
    assert_eq!(gravity_field_plan(&no_radius), Err(LevelError::SphereMissingRadius));
    let no_priority = NodeExtras { gravity_field: Some(0), gravity_field_radius: Some(bits(1.0)), ..empty() };
    assert_eq!(gravity_field_plan(&no_priority), Err(LevelError::SphereMissingPriority));
    // A height is not needed for a sphere.
    let with_height = NodeExtras {
        gravity_field: Some(0),
        gravity_field_radius: Some(bits(1.0)),
        gravity_field_priority: Some(0),
        gravity_field_height: Some(bits(3.0)),
        ..empty()
    };
    assert!(gravity_field_plan(&with_height).is_ok());
}

#[test]
fn cylinder_field() {
    let extras = NodeExtras {
        gravity_field: Some(1),
        gravity_field_priority: Some(2),
        gravity_field_radius: Some(bits(4.0)),
        gravity_field_height: Some(bits(8.0)),
        ..empty()
    };
    assert_eq!(
        gravity_field_plan(&extras),
        Ok(Some(NodeAction::SpawnGravityField {
            field: GravityField { field_type: GravityFieldType::HalfPlane, priority: 2 },
            collider: FieldCollider::Cylinder { radius: bits(4.0), height: bits(8.0) },
        }))
    );
}

#[test]
fn cylinder_field_errors_in_order() {
    let e = NodeExtras { gravity_field: Some(1), gravity_field_priority: Some(1), ..empty() };
    assert_eq!(gravity_field_plan(&e), Err(LevelError::CylinderMissingRadius));
    let e = NodeExtras { gravity_field_radius: Some(bits(1.0)), ..e };
    assert_eq!(gravity_field_plan(&e), Err(LevelError::CylinderMissingHeight));
    let e = NodeExtras { gravity_field_height: Some(bits(1.0)), gravity_field_priority: None, ..e };
    assert_eq!(gravity_field_plan(&e), Err(LevelError::CylinderMissingPriority));
}

#[test]
fn unknown_gravity_field_warns() {
    let e = NodeExtras { gravity_field: Some(2), ..empty() };
    assert_eq!(gravity_field_plan(&e), Ok(Some(NodeAction::WarnUnknownGravityField { code: 2 })));
    let e = NodeExtras { gravity_field: Some(255), ..empty() };
    assert_eq!(gravity_field_plan(&e), Ok(Some(NodeAction::WarnUnknownGravityField { code: 255 })));
}

#[test]
fn primitives_up_to_first_missing_material() {
    assert_eq!(spawnable_primitives(&vec![]), 0);
    assert_eq!(spawnable_primitives(&vec![true, true, true]), 3);
    assert_eq!(spawnable_primitives(&vec![true, false, true]), 1);
    assert_eq!(spawnable_primitives(&vec![false, true]), 0);
}

#[test]
fn rigid_body_codes() {
    for code in 0..=2u8 {
        let plan = rigid_body_plan(Some(code), &MeshLookup::Loaded { primitive_has_material: vec![true, true] });
        assert_eq!(
            plan.actions,
            vec![NodeAction::SpawnPrimitive { primitive: 0 }, NodeAction::SpawnPrimitive { primitive: 1 }]
        );
        assert_eq!(plan.error, None);
    }
    let plan = rigid_body_plan(Some(3), &MeshLookup::NoMesh);
    assert_eq!(plan.actions, vec![NodeAction::WarnUnknownRigidBody { code: 3 }]);
    assert_eq!(plan.error, None);
    let plan = rigid_body_plan(None, &MeshLookup::NotLoaded);
    assert!(plan.actions.is_empty());
    assert_eq!(plan.error, None);
}

#[test]
fn rigid_body_errors() {
    let plan = rigid_body_plan(Some(0), &MeshLookup::NoMesh);
    assert!(plan.actions.is_empty());
    assert_eq!(plan.error, Some(LevelError::RigidBodyWithoutMesh));
    let plan = rigid_body_plan(Some(1), &MeshLookup::NotLoaded);
    assert_eq!(plan.error, Some(LevelError::MeshNotLoaded));
    let plan = rigid_body_plan(Some(2), &MeshLookup::Loaded { primitive_has_material: vec![true, false, true] });
    assert_eq!(plan.actions, vec![NodeAction::SpawnPrimitive { primitive: 0 }]);
    assert_eq!(plan.error, Some(LevelError::PrimitiveMissingMaterial));
}

#[test]
fn node_gravity_before_geometry() {
    let extras = NodeExtras {
        gravity_field: Some(7),
        rigid_body: Some(9),
        ..empty()
    };
    let plan = plan_node(&NodeSource::Ready { extras, mesh: MeshLookup::NoMesh });
    assert_eq!(
        plan.actions,
        vec![
            NodeAction::WarnUnknownGravityField { code: 7 },
            NodeAction::WarnUnknownRigidBody { code: 9 }
        ]
    );
    assert_eq!(plan.error, None);
}

#[test]
fn node_gravity_error_skips_geometry() {
    let extras = NodeExtras { gravity_field: Some(0), rigid_body: Some(0), ..empty() };
    let plan = plan_node(&NodeSource::Ready {
        extras,
        mesh: MeshLookup::Loaded { primitive_has_material: vec![true] },
    });
    assert!(plan.actions.is_empty());
    assert_eq!(plan.error, Some(LevelError::SphereMissingRadius));
}

#[test]
fn node_load_errors() {
    assert_eq!(plan_node(&NodeSource::NotLoaded).error, Some(LevelError::NodeNotLoaded));
    assert_eq!(plan_node(&NodeSource::InvalidExtras).error, Some(LevelError::InvalidExtras));
}

#[test]
fn level_stops_at_first_failure() {
    let sphere = NodeExtras {
        gravity_field: Some(0),
        gravity_field_priority: Some(1),
        gravity_field_radius: Some(bits(30.0)),
        ..empty()
    };
    let nodes = vec![
        NodeSource::Ready { extras: sphere, mesh: MeshLookup::NoMesh },
        NodeSource::Ready {
            extras: NodeExtras { rigid_body: Some(0), ..empty() },
            mesh: MeshLookup::Loaded { primitive_has_material: vec![true, false] },
        },
        NodeSource::Ready { extras: sphere, mesh: MeshLookup::NoMesh },
    ];
    let plan = plan_level(&nodes);
    assert_eq!(
        plan.actions,
        vec![
            LevelAction {
                node: 0,
                action: NodeAction::SpawnGravityField {
                    field: GravityField { field_type: GravityFieldType::Sphere, priority: 1 },
                    collider: FieldCollider::Sphere { radius: bits(30.0) },
                },
            },
            LevelAction { node: 1, action: NodeAction::SpawnPrimitive { primitive: 0 } },
        ]
    );
    assert_eq!(plan.failure, Some(LevelFailure { node: 1, error: LevelError::PrimitiveMissingMaterial }));
}

#[test]
fn level_without_failure() {
    let nodes = vec![
        NodeSource::Ready { extras: empty(), mesh: MeshLookup::NoMesh },
        NodeSource::Ready {
            extras: NodeExtras { rigid_body: Some(1), ..empty() },
            mesh: MeshLookup::Loaded { primitive_has_material: vec![true, true] },
        },
    ];
    let plan = plan_level(&nodes);
    assert_eq!(
        plan.actions,
        vec![
            LevelAction { node: 1, action: NodeAction::SpawnPrimitive { primitive: 0 } },
            LevelAction { node: 1, action: NodeAction::SpawnPrimitive { primitive: 1 } },
        ]
    );
    assert_eq!(plan.failure, None);
    assert!(plan_level(&vec![]).actions.is_empty());
}

#[test]
fn later_failures_do_not_matter() {
    let nodes = vec![NodeSource::InvalidExtras, NodeSource::NotLoaded];
    let plan = plan_level(&nodes);
    assert!(plan.actions.is_empty());
    assert_eq!(plan.failure, Some(LevelFailure { node: 0, error: LevelError::InvalidExtras }));
}

#[test]
fn error_messages() {
    assert_eq!(LevelError::LevelNotLoaded.message(), Some("level gltf not loaded"));
    assert_eq!(LevelError::NodeNotLoaded.message(), Some("level gltf node not loaded"));
    assert_eq!(LevelError::InvalidExtras.message(), None);
    assert_eq!(LevelError::SphereMissingRadius.message(), Some("Sphere gravity field requires a radius; none specified"));
    assert_eq!(LevelError::SphereMissingPriority.message(), Some("Sphere gravity field requires a priority; none specified"));
    assert_eq!(LevelError::CylinderMissingRadius.message(), Some("Cylinder gravity field requires a radius; none specified"));
    assert_eq!(LevelError::CylinderMissingHeight.message(), Some("Cylinder gravity field requires a height; none specified"));
    assert_eq!(LevelError::CylinderMissingPriority.message(), Some("Cylinder gravity field requires a priority; none specified"));
    assert_eq!(LevelError::RigidBodyWithoutMesh.message(), Some("rigid_body must specify a mesh"));
    assert_eq!(LevelError::MeshNotLoaded.message(), Some("level gltf mesh not loaded"));
    assert_eq!(LevelError::PrimitiveMissingMaterial.message(), Some("primative missing material"));
}

#[test]
fn successful_level_spawns_what_nodes_ask_for() {
    // One sphere field, one cylinder field with three primitives of geometry,
    // one unknown field code, one unknown rigid-body code: 1 + 1 + 3 spawns.
    let nodes = vec![
        NodeSource::Ready {
            extras: NodeExtras {
                gravity_field: Some(0),
                gravity_field_priority: Some(1),
                gravity_field_radius: Some(bits(5.0)),
                ..empty()
            },
            mesh: MeshLookup::NoMesh,
        },
        NodeSource::Ready {
            extras: NodeExtras {
                gravity_field: Some(1),
                gravity_field_priority: Some(2),
                gravity_field_radius: Some(bits(5.0)),
                gravity_field_height: Some(bits(2.0)),
                rigid_body: Some(2),
                ..empty()
            },
            mesh: MeshLookup::Loaded { primitive_has_material: vec![true, true, true] },
        },
        NodeSource::Ready {
            extras: NodeExtras { gravity_field: Some(4), rigid_body: Some(3), ..empty() },
            mesh: MeshLookup::NoMesh,
        },
    ];
    let plan = plan_level(&nodes);
    assert_eq!(plan.failure, None);
    let spawns = plan
        .actions
        .iter()
        .filter(|a| matches!(a.action, NodeAction::SpawnGravityField { .. } | NodeAction::SpawnPrimitive { .. }))
        .count();
    assert_eq!(spawns, 5);
    assert_eq!(plan.actions.len(), 7);
}
