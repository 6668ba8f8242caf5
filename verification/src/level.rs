use vstd::prelude::*;

use crate::gravity::{GravityField, GravityFieldType};

verus! {

/// The custom properties of one node of the level file, as the level editor
/// writes them. Lengths are kept as the bit patterns of their `f32` values
/// (`f32::to_bits`): they are handed on to the physics engine unchanged.
#[derive(Clone, Copy, Debug, PartialEq, Eq, Structural)]
pub struct NodeExtras {
    /// `0` for a sphere field, `1` for a cylinder (half-plane) field.
    pub gravity_field: Option<u8>,
    pub gravity_field_priority: Option<u8>,
    pub gravity_field_radius: Option<u32>,
    pub gravity_field_height: Option<u32>,
    /// `0`, `1` or `2`: the node's mesh becomes static level geometry.
    pub rigid_body: Option<u8>,
}

/// What the level file and the asset store give for a node's mesh.
#[derive(Debug)]
pub enum MeshLookup {
    /// The node has no mesh.
    NoMesh,
    /// The node names a mesh that is not loaded.
    NotLoaded,
    /// The mesh is loaded; entry `k` says whether its `k`-th primitive has
    /// a material.
    Loaded { primitive_has_material: Vec<bool> },
}

/// What the level file and the asset store give for one node.
#[derive(Debug)]
pub enum NodeSource {
    /// The node asset is not loaded.
    NotLoaded,
    /// The node's custom properties are not valid for [`NodeExtras`].
    InvalidExtras,
    /// The node's custom properties (`{}` when it has none) and its mesh.
    Ready { extras: NodeExtras, mesh: MeshLookup },
}

/// The collider of a gravity field; lengths as `f32` bit patterns.
#[derive(Clone, Copy, Debug, PartialEq, Eq, Structural)]
pub enum FieldCollider {
    Sphere { radius: u32 },
    Cylinder { radius: u32, height: u32 },
}

/// One effect of setting up a level node, in the order they happen.
#[derive(Clone, Copy, Debug, PartialEq, Eq, Structural)]
pub enum NodeAction {
    /// Spawn a static sensor that is a gravity field, at the node's transform.
    SpawnGravityField { field: GravityField, collider: FieldCollider },
    /// Spawn the given primitive of the node's mesh as static geometry, with
    /// a collider decomposed from the mesh, at the node's transform.
    SpawnPrimitive { primitive: usize },
    /// Log that the node's `gravity_field` code is unknown.
    WarnUnknownGravityField { code: u8 },
    /// Log that the node's `rigid_body` code is unknown.
    WarnUnknownRigidBody { code: u8 },
}

/// An effect of setting up the level, with the index of its node.
#[derive(Clone, Copy, Debug, PartialEq, Eq, Structural)]
pub struct LevelAction {
    pub node: usize,
    pub action: NodeAction,
}

/// Why setting up the level stopped.
#[derive(Clone, Copy, Debug, PartialEq, Eq, Structural)]
pub enum LevelError {
    /// The level file itself is not loaded.
    LevelNotLoaded,
    NodeNotLoaded,
    /// The node's properties cannot be read; the game reports the parser's
    /// own error for it.
    InvalidExtras,
    SphereMissingRadius,
    SphereMissingPriority,
    CylinderMissingRadius,
    CylinderMissingHeight,
    CylinderMissingPriority,
    RigidBodyWithoutMesh,
    MeshNotLoaded,
    PrimitiveMissingMaterial,
}

/// The node at which setting up the level stopped, and why.
#[derive(Clone, Copy, Debug, PartialEq, Eq, Structural)]
pub struct LevelFailure {
    pub node: usize,
    pub error: LevelError,
}

/// The effects of one node, up to its error if it has one.
#[derive(Debug)]
pub struct NodePlan {
    pub actions: Vec<NodeAction>,
    pub error: Option<LevelError>,
}

/// The effects of the whole level, up to the first failing node.
#[derive(Debug)]
pub struct LevelPlan {
    pub actions: Vec<LevelAction>,
    pub failure: Option<LevelFailure>,
}

/// The message that each error carries. Node properties that cannot be read
/// carry no message of their own: the game reports the parser's error for
/// them.
pub open spec fn error_message(error: LevelError) -> Option<Seq<char>> {
    match error {
        LevelError::LevelNotLoaded => Some("level gltf not loaded"@),
        LevelError::NodeNotLoaded => Some("level gltf node not loaded"@),
        LevelError::InvalidExtras => None,
        LevelError::SphereMissingRadius => Some("Sphere gravity field requires a radius; none specified"@),
        LevelError::SphereMissingPriority => Some("Sphere gravity field requires a priority; none specified"@),
        LevelError::CylinderMissingRadius => Some("Cylinder gravity field requires a radius; none specified"@),
        LevelError::CylinderMissingHeight => Some("Cylinder gravity field requires a height; none specified"@),
        LevelError::CylinderMissingPriority => Some("Cylinder gravity field requires a priority; none specified"@),
        LevelError::RigidBodyWithoutMesh => Some("rigid_body must specify a mesh"@),
        LevelError::MeshNotLoaded => Some("level gltf mesh not loaded"@),
        LevelError::PrimitiveMissingMaterial => Some("primative missing material"@),
    }
}

impl LevelError {
    /// The error's message; `None` for node properties that cannot be read,
    /// whose error is the parser's own.
    pub fn message(&self) -> (m: Option<&'static str>)
        ensures
            m is None <==> error_message(*self) is None,
            m matches Some(text) ==> error_message(*self) == Some(text@),
    {
        match self {
            LevelError::LevelNotLoaded => Some("level gltf not loaded"),
            LevelError::NodeNotLoaded => Some("level gltf node not loaded"),
            LevelError::InvalidExtras => None,
            LevelError::SphereMissingRadius => Some("Sphere gravity field requires a radius; none specified"),
            LevelError::SphereMissingPriority => Some("Sphere gravity field requires a priority; none specified"),
            LevelError::CylinderMissingRadius => Some("Cylinder gravity field requires a radius; none specified"),
            LevelError::CylinderMissingHeight => Some("Cylinder gravity field requires a height; none specified"),
            LevelError::CylinderMissingPriority => Some("Cylinder gravity field requires a priority; none specified"),
            LevelError::RigidBodyWithoutMesh => Some("rigid_body must specify a mesh"),
            LevelError::MeshNotLoaded => Some("level gltf mesh not loaded"),
            LevelError::PrimitiveMissingMaterial => Some("primative missing material"),
        }
    }
}

/// The gravity field that a node's properties ask for: a sphere (code `0`)
/// needs a radius and then a priority; a cylinder (code `1`, a half-plane
/// field) needs a radius, then a height, then a priority; another code only
/// gives a warning.
pub open spec fn gravity_field_plan_of(extras: NodeExtras) -> Result<Option<NodeAction>, LevelError> {
    match extras.gravity_field {
        None => Ok(None),
        Some(code) => if code == 0 {
            match (extras.gravity_field_radius, extras.gravity_field_priority) {
                (None, _) => Err(LevelError::SphereMissingRadius),
                (Some(_), None) => Err(LevelError::SphereMissingPriority),
                (Some(radius), Some(priority)) => Ok(
                    Some(
                        NodeAction::SpawnGravityField {
                            field: GravityField { field_type: GravityFieldType::Sphere, priority },
                            collider: FieldCollider::Sphere { radius },
                        },
                    ),
                ),
            }
        } else if code == 1 {
            match (
                extras.gravity_field_radius,
                extras.gravity_field_height,
                extras.gravity_field_priority,
            ) {
                (None, _, _) => Err(LevelError::CylinderMissingRadius),
                (Some(_), None, _) => Err(LevelError::CylinderMissingHeight),
                (Some(_), Some(_), None) => Err(LevelError::CylinderMissingPriority),
                (Some(radius), Some(height), Some(priority)) => Ok(
                    Some(
                        NodeAction::SpawnGravityField {
                            field: GravityField { field_type: GravityFieldType::HalfPlane, priority },
                            collider: FieldCollider::Cylinder { radius, height },
                        },
                    ),
                ),
            }
        } else {
            Ok(Some(NodeAction::WarnUnknownGravityField { code }))
        },
    }
}

/// Decides the gravity field of a node.
pub fn gravity_field_plan(extras: &NodeExtras) -> (plan: Result<Option<NodeAction>, LevelError>)
    ensures
        plan == gravity_field_plan_of(*extras),
{
    match extras.gravity_field {
        None => Ok(None),
        Some(code) => {
            if code == 0 {
                let radius = match extras.gravity_field_radius {
                    Some(r) => r,
                    None => { return Err(LevelError::SphereMissingRadius); },
                };
                let priority = match extras.gravity_field_priority {
                    Some(p) => p,
                    None => { return Err(LevelError::SphereMissingPriority); },
                };
                Ok(
                    Some(
                        NodeAction::SpawnGravityField {
                            field: GravityField { field_type: GravityFieldType::Sphere, priority },
                            collider: FieldCollider::Sphere { radius },
                        },
                    ),
                )
            } else if code == 1 {
                let radius = match extras.gravity_field_radius {
                    Some(r) => r,
                    None => { return Err(LevelError::CylinderMissingRadius); },
                };
                let height = match extras.gravity_field_height {
                    Some(h) => h,
                    None => { return Err(LevelError::CylinderMissingHeight); },
                };
                let priority = match extras.gravity_field_priority {
                    Some(p) => p,
                    None => { return Err(LevelError::CylinderMissingPriority); },
                };
                Ok(
                    Some(
                        NodeAction::SpawnGravityField {
                            field: GravityField { field_type: GravityFieldType::HalfPlane, priority },
                            collider: FieldCollider::Cylinder { radius, height },
                        },
                    ),
                )
            } else {
                Ok(Some(NodeAction::WarnUnknownGravityField { code }))
            }
        },
    }
}

/// The number of leading primitives that have a material: the index of the
/// first one without, or the number of primitives if all have one.
pub open spec fn first_missing_material(has_material: Seq<bool>) -> nat
    decreases has_material.len(),
{
    if has_material.len() == 0 {
        0
    } else if !has_material[0] {
        0
    } else {
        1 + first_missing_material(has_material.drop_first())
    }
}

/// `k` is the index of the first primitive without a material (or the count).
pub proof fn lemma_first_missing_material(has_material: Seq<bool>, k: int)
    requires
        0 <= k <= has_material.len(),
        forall|j: int| 0 <= j < k ==> has_material[j],
        k < has_material.len() ==> !has_material[k],
    ensures
        first_missing_material(has_material) == k,
    decreases has_material.len(),
{
    if has_material.len() > 0 && k > 0 {
        let rest = has_material.drop_first();
        assert forall|j: int| 0 <= j < k - 1 implies rest[j] by {
            assert(has_material[j + 1]);
        }
        if k - 1 < rest.len() {
            assert(rest[k - 1] == has_material[k]);
        }
        lemma_first_missing_material(rest, k - 1);
    }
}

/// Spawning the first `count` primitives, in order.
pub open spec fn primitive_spawns(count: nat) -> Seq<NodeAction> {
    Seq::new(count, |i: int| NodeAction::SpawnPrimitive { primitive: i as usize })
}

/// The static geometry that a node's `rigid_body` code asks for: codes `0`,
/// `1` and `2` need a loaded mesh, whose primitives are spawned in order up
/// to the first one without a material; another code only gives a warning.
pub open spec fn rigid_body_plan_of(rigid_body: Option<u8>, mesh: MeshLookup) -> (Seq<NodeAction>, Option<LevelError>) {
    match rigid_body {
        None => (seq![], None),
        Some(code) => if code <= 2 {
            match mesh {
                MeshLookup::NoMesh => (seq![], Some(LevelError::RigidBodyWithoutMesh)),
                MeshLookup::NotLoaded => (seq![], Some(LevelError::MeshNotLoaded)),
                MeshLookup::Loaded { primitive_has_material } => {
                    let k = first_missing_material(primitive_has_material@);
                    (
                        primitive_spawns(k),
                        if k < primitive_has_material@.len() {
                            Some(LevelError::PrimitiveMissingMaterial)
                        } else {
                            None
                        },
                    )
                },
            }
        } else {
            (seq![NodeAction::WarnUnknownRigidBody { code }], None)
        },
    }
}

/// The number of primitives spawned before the first one without a material.
pub fn spawnable_primitives(has_material: &Vec<bool>) -> (count: usize)
    ensures
        count == first_missing_material(has_material@),
        count <= has_material@.len(),
        forall|j: int| 0 <= j < count ==> has_material@[j],
        count < has_material@.len() ==> !has_material@[count as int],
{
    let n = has_material.len();
    let mut k: usize = 0;
    while k < n && has_material[k]
        invariant
            n == has_material@.len(),
            k <= n,
            forall|j: int| 0 <= j < k ==> has_material@[j],
        decreases n - k,
    {
        k = k + 1;
    }
    proof {
        lemma_first_missing_material(has_material@, k as int);
    }
    k
}

/// Decides the static geometry of a node.
pub fn rigid_body_plan(rigid_body: Option<u8>, mesh: &MeshLookup) -> (plan: NodePlan)
    ensures
        plan.actions@ == rigid_body_plan_of(rigid_body, *mesh).0,
        plan.error == rigid_body_plan_of(rigid_body, *mesh).1,
{
    match rigid_body {
        None => NodePlan { actions: Vec::new(), error: None },
        Some(code) => {
            if code <= 2 {
                match mesh {
                    MeshLookup::NoMesh => NodePlan {
                        actions: Vec::new(),
                        error: Some(LevelError::RigidBodyWithoutMesh),
                    },
                    MeshLookup::NotLoaded => NodePlan {
                        actions: Vec::new(),
                        error: Some(LevelError::MeshNotLoaded),
                    },
                    MeshLookup::Loaded { primitive_has_material } => {
                        let count = spawnable_primitives(primitive_has_material);
                        let mut actions: Vec<NodeAction> = Vec::new();
                        let mut i: usize = 0;
                        while i < count
                            invariant
                                i <= count,
                                actions@ == primitive_spawns(i as nat),
                            decreases count - i,
                        {
                            actions.push(NodeAction::SpawnPrimitive { primitive: i });
                            i = i + 1;
                            assert(actions@ =~= primitive_spawns(i as nat));
                        }
                        let error = if count < primitive_has_material.len() {
                            Some(LevelError::PrimitiveMissingMaterial)
                        } else {
                            None
                        };
                        NodePlan { actions, error }
                    },
                }
            } else {
                let mut actions: Vec<NodeAction> = Vec::new();
                actions.push(NodeAction::WarnUnknownRigidBody { code });
                assert(actions@ =~= seq![NodeAction::WarnUnknownRigidBody { code }]);
                NodePlan { actions, error: None }
            }
        },
    }
}

/// The effects of one node: first its gravity field, then its static
/// geometry. An error in the gravity field ends the node before its geometry
/// is looked at.
pub open spec fn node_plan_of(source: NodeSource) -> (Seq<NodeAction>, Option<LevelError>) {
    match source {
        NodeSource::NotLoaded => (seq![], Some(LevelError::NodeNotLoaded)),
        NodeSource::InvalidExtras => (seq![], Some(LevelError::InvalidExtras)),
        NodeSource::Ready { extras, mesh } => match gravity_field_plan_of(extras) {
            Err(e) => (seq![], Some(e)),
            Ok(field) => {
                let first: Seq<NodeAction> = match field {
                    Some(a) => seq![a],
                    None => seq![],
                };
                let rest = rigid_body_plan_of(extras.rigid_body, mesh);
                (first + rest.0, rest.1)
            },
        },
    }
}

/// Decides the effects of one node.
pub fn plan_node(source: &NodeSource) -> (plan: NodePlan)
    ensures
        plan.actions@ == node_plan_of(*source).0,
        plan.error == node_plan_of(*source).1,
{
    match source {
        NodeSource::NotLoaded => NodePlan { actions: Vec::new(), error: Some(LevelError::NodeNotLoaded) },
        NodeSource::InvalidExtras => NodePlan { actions: Vec::new(), error: Some(LevelError::InvalidExtras) },
        NodeSource::Ready { extras, mesh } => {
            match gravity_field_plan(extras) {
                Err(e) => NodePlan { actions: Vec::new(), error: Some(e) },
                Ok(field) => {
                    let mut actions: Vec<NodeAction> = Vec::new();
                    match field {
                        Some(a) => { actions.push(a); },
                        None => {},
                    }
                    let ghost first = actions@;
                    let rest = rigid_body_plan(extras.rigid_body, mesh);
                    let mut geometry = rest.actions;
                    actions.append(&mut geometry);
                    assert(actions@ =~= first + rest.actions@);
                    NodePlan { actions, error: rest.error }
                },
            }
        },
    }
}

/// A node's effects, each tagged with the node's index.
pub open spec fn tag_actions(actions: Seq<NodeAction>, node: int) -> Seq<LevelAction> {
    actions.map_values(|a: NodeAction| LevelAction { node: node as usize, action: a })
}

/// The effects of a level: the nodes are set up in order, and the first node
/// with an error ends the set-up, after the effects that came before its
/// error.
pub open spec fn level_plan_of(nodes: Seq<NodeSource>) -> (Seq<LevelAction>, Option<LevelFailure>)
    decreases nodes.len(),
{
    if nodes.len() == 0 {
        (seq![], None)
    } else {
        let before = level_plan_of(nodes.drop_last());
        if before.1 is Some {
            before
        } else {
            let last = node_plan_of(nodes.last());
            let index = nodes.len() - 1;
            (
                before.0 + tag_actions(last.0, index),
                match last.1 {
                    Some(error) => Some(LevelFailure { node: index as usize, error }),
                    None => None,
                },
            )
        }
    }
}

/// Decides the effects of setting up a level from its nodes, in order.
pub fn plan_level(nodes: &Vec<NodeSource>) -> (plan: LevelPlan)
    ensures
        plan.actions@ == level_plan_of(nodes@).0,
        plan.failure == level_plan_of(nodes@).1,
{
    let n = nodes.len();
    let mut actions: Vec<LevelAction> = Vec::new();
    let mut k: usize = 0;
    assert(nodes@.take(0) =~= Seq::<NodeSource>::empty());
    while k < n
        invariant
            n == nodes@.len(),
            k <= n,
            actions@ == level_plan_of(nodes@.take(k as int)).0,
            level_plan_of(nodes@.take(k as int)).1 is None,
        decreases n - k,
    {
        let node_plan = plan_node(&nodes[k]);
        let ghost before = actions@;
        let m = node_plan.actions.len();
        let mut j: usize = 0;
        while j < m
            invariant
                m == node_plan.actions@.len(),
                j <= m,
                actions@ == before + tag_actions(node_plan.actions@.take(j as int), k as int),
            decreases m - j,
        {
            actions.push(LevelAction { node: k, action: node_plan.actions[j] });
            j = j + 1;
            assert(tag_actions(node_plan.actions@.take(j as int), k as int) =~= tag_actions(
                node_plan.actions@.take(j - 1),
                k as int,
            ).push(LevelAction { node: k, action: node_plan.actions@[j - 1] }));
        }
        assert(node_plan.actions@.take(m as int) =~= node_plan.actions@);
        let ghost prefix = nodes@.take(k + 1);
        assert(prefix.drop_last() =~= nodes@.take(k as int));
        assert(prefix.last() == nodes@[k as int]);
        assert(level_plan_of(prefix).0 =~= actions@);
        match node_plan.error {
            Some(error) => {
                assert(level_plan_of(prefix).1 == Some(LevelFailure { node: k, error }));
                proof {
                    lemma_failure_ends_level(prefix, nodes@.skip(k + 1));
                    assert(prefix + nodes@.skip(k + 1) =~= nodes@);
                }
                return LevelPlan { actions, failure: Some(LevelFailure { node: k, error }) };
            },
            None => {},
        }
        k = k + 1;
    }
    assert(nodes@.take(n as int) =~= nodes@);
    LevelPlan { actions, failure: None }
}

/// Once a node has failed, the nodes after it change nothing: the level
/// set-up stopped there.
pub proof fn lemma_failure_ends_level(nodes: Seq<NodeSource>, later: Seq<NodeSource>)
    requires
        level_plan_of(nodes).1 is Some,
    ensures
        level_plan_of(nodes + later) == level_plan_of(nodes),
    decreases later.len(),
{
    if later.len() == 0 {
        assert(nodes + later =~= nodes);
    } else {
        lemma_failure_ends_level(nodes, later.drop_last());
        assert((nodes + later).drop_last() =~= nodes + later.drop_last());
    }
}

/// A level that fails, fails at one of its nodes, after every effect of the
/// nodes before it; no effect belongs to a later node.
pub proof fn lemma_failure_is_last(nodes: Seq<NodeSource>)
    requires
        nodes.len() <= usize::MAX,
        level_plan_of(nodes).1 is Some,
    ensures
        level_plan_of(nodes).1->0.node < nodes.len(),
        forall|i: int|
            0 <= i < level_plan_of(nodes).0.len() ==> #[trigger] level_plan_of(nodes).0[i].node
                <= level_plan_of(nodes).1->0.node,
    decreases nodes.len(),
{
    let before = level_plan_of(nodes.drop_last());
    if before.1 is Some {
        lemma_failure_is_last(nodes.drop_last());
    } else {
        lemma_actions_before(nodes.drop_last());
        let last = node_plan_of(nodes.last());
        let plan = level_plan_of(nodes);
        assert forall|i: int| 0 <= i < plan.0.len() implies #[trigger] plan.0[i].node <= plan.1->0.node by {
            if i >= before.0.len() {
                assert(plan.0[i] == tag_actions(last.0, nodes.len() - 1)[i - before.0.len()]);
            } else {
                assert(plan.0[i] == before.0[i]);
            }
        }
    }
}

/// Every effect of a level belongs to one of its nodes.
pub proof fn lemma_actions_before(nodes: Seq<NodeSource>)
    requires
        nodes.len() <= usize::MAX,
    ensures
        forall|i: int|
            0 <= i < level_plan_of(nodes).0.len() ==> #[trigger] level_plan_of(nodes).0[i].node
                < nodes.len(),
    decreases nodes.len(),
{
    if nodes.len() > 0 {
        lemma_actions_before(nodes.drop_last());
        let before = level_plan_of(nodes.drop_last());
        if before.1 is None {
            let last = node_plan_of(nodes.last());
            let plan = level_plan_of(nodes);
            assert forall|i: int| 0 <= i < plan.0.len() implies #[trigger] plan.0[i].node < nodes.len() by {
                if i >= before.0.len() {
                    assert(plan.0[i] == tag_actions(last.0, nodes.len() - 1)[i - before.0.len()]);
                } else {
                    assert(plan.0[i] == before.0[i]);
                }
            }
        }
    }
}

/// The action spawns an entity (a gravity field or a piece of static
/// geometry), rather than logging a warning.
pub open spec fn is_spawn(action: NodeAction) -> bool {
    action is SpawnGravityField || action is SpawnPrimitive
}

/// The number of spawning actions in `actions`.
pub open spec fn spawn_count(actions: Seq<NodeAction>) -> nat
    decreases actions.len(),
{
    if actions.len() == 0 {
        0
    } else {
        spawn_count(actions.drop_last()) + if is_spawn(actions.last()) { 1nat } else { 0nat }
    }
}

/// The number of spawning actions among the effects of a level.
pub open spec fn level_spawn_count(actions: Seq<LevelAction>) -> nat
    decreases actions.len(),
{
    if actions.len() == 0 {
        0
    } else {
        level_spawn_count(actions.drop_last()) + if is_spawn(actions.last().action) {
            1nat
        } else {
            0nat
        }
    }
}

/// The entities a node asks for: one for a sphere or cylinder gravity field,
/// plus, for a rigid-body code `0`, `1` or `2`, one per primitive of its
/// loaded mesh.
pub open spec fn requested_spawns(source: NodeSource) -> nat {
    match source {
        NodeSource::Ready { extras, mesh } => {
            let field: nat = if extras.gravity_field == Some(0u8) || extras.gravity_field == Some(
                1u8,
            ) {
                1
            } else {
                0
            };
            let geometry: nat = match (extras.rigid_body, mesh) {
                (Some(code), MeshLookup::Loaded { primitive_has_material }) => if code <= 2 {
                    primitive_has_material@.len()
                } else {
                    0
                },
                _ => 0,
            };
            field + geometry
        },
        _ => 0,
    }
}

/// The entities all the nodes of a level ask for.
pub open spec fn requested_level_spawns(nodes: Seq<NodeSource>) -> nat
    decreases nodes.len(),
{
    if nodes.len() == 0 {
        0
    } else {
        requested_level_spawns(nodes.drop_last()) + requested_spawns(nodes.last())
    }
}

proof fn lemma_spawn_count_append(a: Seq<NodeAction>, b: Seq<NodeAction>)
    ensures
        spawn_count(a + b) == spawn_count(a) + spawn_count(b),
    decreases b.len(),
{
    if b.len() == 0 {
        assert(a + b =~= a);
    } else {
        lemma_spawn_count_append(a, b.drop_last());
        assert((a + b).drop_last() =~= a + b.drop_last());
    }
}

proof fn lemma_level_spawn_count_append(a: Seq<LevelAction>, b: Seq<LevelAction>)
    ensures
        level_spawn_count(a + b) == level_spawn_count(a) + level_spawn_count(b),
    decreases b.len(),
{
    if b.len() == 0 {
        assert(a + b =~= a);
    } else {
        lemma_level_spawn_count_append(a, b.drop_last());
        assert((a + b).drop_last() =~= a + b.drop_last());
    }
}

proof fn lemma_tag_spawn_count(actions: Seq<NodeAction>, node: int)
    ensures
        level_spawn_count(tag_actions(actions, node)) == spawn_count(actions),
    decreases actions.len(),
{
    if actions.len() > 0 {
        lemma_tag_spawn_count(actions.drop_last(), node);
        assert(tag_actions(actions, node).drop_last() =~= tag_actions(actions.drop_last(), node));
    }
}

proof fn lemma_primitive_spawn_count(count: nat)
    ensures
        spawn_count(primitive_spawns(count)) == count,
    decreases count,
{
    if count > 0 {
        lemma_primitive_spawn_count((count - 1) as nat);
        assert(primitive_spawns(count).drop_last() =~= primitive_spawns((count - 1) as nat));
    }
}

proof fn lemma_first_missing_material_bound(has_material: Seq<bool>)
    ensures
        first_missing_material(has_material) <= has_material.len(),
    decreases has_material.len(),
{
    if has_material.len() > 0 && has_material[0] {
        lemma_first_missing_material_bound(has_material.drop_first());
    }
}

/// A node set up without error spawns exactly the entities it asks for.
pub proof fn lemma_node_spawn_count(source: NodeSource)
    requires
        node_plan_of(source).1 is None,
    ensures
        spawn_count(node_plan_of(source).0) == requested_spawns(source),
{
    match source {
        NodeSource::Ready { extras, mesh } => {
            let field = gravity_field_plan_of(extras);
            assert(field is Ok);
            let first: Seq<NodeAction> = match field {
                Ok(Some(a)) => seq![a],
                _ => seq![],
            };
            let rest = rigid_body_plan_of(extras.rigid_body, mesh);
            assert(node_plan_of(source).0 == first + rest.0);
            lemma_spawn_count_append(first, rest.0);
            let field_spawns: nat = if extras.gravity_field == Some(0u8) || extras.gravity_field
                == Some(1u8) {
                1
            } else {
                0
            };
            match field {
                Ok(Some(a)) => {
                    assert(first.drop_last() =~= Seq::<NodeAction>::empty());
                    assert(first.last() == a);
                    assert(is_spawn(a) <==> field_spawns == 1);
                    assert(spawn_count(Seq::<NodeAction>::empty()) == 0);
                    assert(spawn_count(first) == field_spawns);
                },
                _ => {
                    assert(first.len() == 0);
                    assert(extras.gravity_field is None);
                    assert(spawn_count(first) == field_spawns);
                },
            }
            assert(spawn_count(first) == field_spawns);
            match extras.rigid_body {
                Some(code) => {
                    if code <= 2 {
                        match mesh {
                            MeshLookup::Loaded { primitive_has_material } => {
                                lemma_primitive_spawn_count(
                                    first_missing_material(primitive_has_material@),
                                );
                                lemma_first_missing_material_bound(primitive_has_material@);
                                assert(spawn_count(rest.0) == primitive_has_material@.len());
                            },
                            _ => {},
                        }
                    } else {
                        assert(rest.0.drop_last() =~= Seq::<NodeAction>::empty());
                        assert(spawn_count(Seq::<NodeAction>::empty()) == 0);
                        assert(spawn_count(rest.0) == 0);
                    }
                },
                None => {
                    assert(spawn_count(rest.0) == 0);
                },
            }
        },
        _ => {},
    }
}

/// A level set up without error spawns exactly the entities its nodes ask
/// for: one per sphere or cylinder gravity field, and one per primitive of
/// each node whose rigid-body code is `0`, `1` or `2`.
pub proof fn lemma_level_spawn_count(nodes: Seq<NodeSource>)
    requires
        level_plan_of(nodes).1 is None,
    ensures
        level_spawn_count(level_plan_of(nodes).0) == requested_level_spawns(nodes),
    decreases nodes.len(),
{
    if nodes.len() > 0 {
        let before = level_plan_of(nodes.drop_last());
        assert(before.1 is None);
        lemma_level_spawn_count(nodes.drop_last());
        let last = node_plan_of(nodes.last());
        lemma_node_spawn_count(nodes.last());
        lemma_level_spawn_count_append(before.0, tag_actions(last.0, nodes.len() - 1));
        lemma_tag_spawn_count(last.0, nodes.len() - 1);
    }
}

/// The prefix of primitives with a material ends at `first_missing_material`.
proof fn lemma_first_missing_material_prefix(has_material: Seq<bool>)
    ensures
        first_missing_material(has_material) <= has_material.len(),
        forall|j: int| 0 <= j < first_missing_material(has_material) ==> has_material[j],
        first_missing_material(has_material) < has_material.len() ==> !has_material[first_missing_material(
            has_material,
        ) as int],
    decreases has_material.len(),
{
    if has_material.len() > 0 && has_material[0] {
        let rest = has_material.drop_first();
        lemma_first_missing_material_prefix(rest);
        assert forall|j: int| 0 <= j < first_missing_material(has_material) implies has_material[j] by {
            if j > 0 {
                assert(has_material[j] == rest[j - 1]);
            }
        }
    }
}

/// A sphere field (code `0`) with a radius and a priority is a `Sphere`
/// field of that priority with a sphere collider of that radius, whatever
/// the priority; a cylinder field (code `1`) with a radius, a height and a
/// priority is a `HalfPlane` field of that priority with a cylinder collider
/// of that radius and height.
pub proof fn lemma_gravity_field_shapes(extras: NodeExtras)
    ensures
        extras.gravity_field == Some(0u8) && extras.gravity_field_radius is Some
            && extras.gravity_field_priority is Some ==> gravity_field_plan_of(extras) == Ok::<
            Option<NodeAction>,
            LevelError,
        >(
            Some(
                NodeAction::SpawnGravityField {
                    field: GravityField {
                        field_type: GravityFieldType::Sphere,
                        priority: extras.gravity_field_priority->0,
                    },
                    collider: FieldCollider::Sphere { radius: extras.gravity_field_radius->0 },
                },
            ),
        ),
        extras.gravity_field == Some(1u8) && extras.gravity_field_radius is Some
            && extras.gravity_field_height is Some && extras.gravity_field_priority is Some
            ==> gravity_field_plan_of(extras) == Ok::<Option<NodeAction>, LevelError>(
            Some(
                NodeAction::SpawnGravityField {
                    field: GravityField {
                        field_type: GravityFieldType::HalfPlane,
                        priority: extras.gravity_field_priority->0,
                    },
                    collider: FieldCollider::Cylinder {
                        radius: extras.gravity_field_radius->0,
                        height: extras.gravity_field_height->0,
                    },
                },
            ),
        ),
        extras.gravity_field is None ==> gravity_field_plan_of(extras) == Ok::<
            Option<NodeAction>,
            LevelError,
        >(None),
        (extras.gravity_field matches Some(code) && code > 1) ==> gravity_field_plan_of(extras)
            == Ok::<Option<NodeAction>, LevelError>(
            Some(NodeAction::WarnUnknownGravityField { code: extras.gravity_field->0 }),
        ),
{
}

/// A gravity field fails only for a missing property: a sphere needs a
/// radius (checked first) and a priority; a cylinder needs a radius, then a
/// height, then a priority.
pub proof fn lemma_gravity_field_errors(extras: NodeExtras)
    ensures
        extras.gravity_field == Some(0u8) && extras.gravity_field_radius is None
            ==> gravity_field_plan_of(extras) == Err::<Option<NodeAction>, LevelError>(
            LevelError::SphereMissingRadius,
        ),
        extras.gravity_field == Some(0u8) && extras.gravity_field_radius is Some
            && extras.gravity_field_priority is None ==> gravity_field_plan_of(extras) == Err::<
            Option<NodeAction>,
            LevelError,
        >(LevelError::SphereMissingPriority),
        extras.gravity_field == Some(1u8) && extras.gravity_field_radius is None
            ==> gravity_field_plan_of(extras) == Err::<Option<NodeAction>, LevelError>(
            LevelError::CylinderMissingRadius,
        ),
        extras.gravity_field == Some(1u8) && extras.gravity_field_radius is Some
            && extras.gravity_field_height is None ==> gravity_field_plan_of(extras) == Err::<
            Option<NodeAction>,
            LevelError,
        >(LevelError::CylinderMissingHeight),
        extras.gravity_field == Some(1u8) && extras.gravity_field_radius is Some
            && extras.gravity_field_height is Some && extras.gravity_field_priority is None
            ==> gravity_field_plan_of(extras) == Err::<Option<NodeAction>, LevelError>(
            LevelError::CylinderMissingPriority,
        ),
        gravity_field_plan_of(extras) is Err ==> extras.gravity_field == Some(0u8)
            || extras.gravity_field == Some(1u8),
{
}

/// The static geometry of a loaded mesh with a rigid-body code `0`, `1` or
/// `2`: its primitives are spawned in order, `k`-th action spawning primitive
/// `k`; every primitive is spawned and there is no error exactly when every
/// primitive has a material, and otherwise the error is a missing material,
/// after spawning just the primitives before the first one without.
pub proof fn lemma_rigid_body_geometry(code: u8, primitive_has_material: Vec<bool>)
    requires
        code <= 2,
    ensures
        ({
            let m = primitive_has_material@;
            let plan = rigid_body_plan_of(
                Some(code),
                MeshLookup::Loaded { primitive_has_material },
            );
            &&& plan.0.len() <= m.len()
            &&& forall|i: int|
                0 <= i < plan.0.len() ==> plan.0[i] == NodeAction::SpawnPrimitive {
                    primitive: i as usize,
                } && m[i]
            &&& (forall|j: int| 0 <= j < m.len() ==> m[j]) ==> plan.1 is None && plan.0.len()
                == m.len()
            &&& (exists|j: int| 0 <= j < m.len() && !m[j]) ==> plan.1 == Some(
                LevelError::PrimitiveMissingMaterial,
            ) && plan.0.len() < m.len() && !m[plan.0.len() as int]
            &&& plan.1 is None || plan.1 == Some(LevelError::PrimitiveMissingMaterial)
        }),
{
    let m = primitive_has_material@;
    lemma_first_missing_material_prefix(m);
    let k = first_missing_material(m);
    if forall|j: int| 0 <= j < m.len() ==> m[j] {
        if k < m.len() {
            assert(m[k as int]);
        }
    }
}

/// Without a loaded mesh, a rigid-body code `0`, `1` or `2` fails: with no
/// mesh named, or with a mesh not loaded. Codes above `2` only warn, and no
/// code spawns nothing and never fails.
pub proof fn lemma_rigid_body_codes(rigid_body: Option<u8>, mesh: MeshLookup)
    ensures
        rigid_body matches Some(code) && code <= 2 && mesh is NoMesh ==> rigid_body_plan_of(
            rigid_body,
            mesh,
        ) == (Seq::<NodeAction>::empty(), Some(LevelError::RigidBodyWithoutMesh)),
        rigid_body matches Some(code) && code <= 2 && mesh is NotLoaded ==> rigid_body_plan_of(
            rigid_body,
            mesh,
        ) == (Seq::<NodeAction>::empty(), Some(LevelError::MeshNotLoaded)),
        rigid_body matches Some(code) && code > 2 ==> rigid_body_plan_of(rigid_body, mesh) == (
            seq![NodeAction::WarnUnknownRigidBody { code: rigid_body->0 }],
            None::<LevelError>,
        ),
        rigid_body is None ==> rigid_body_plan_of(rigid_body, mesh) == (
            Seq::<NodeAction>::empty(),
            None::<LevelError>,
        ),
{
    assert(Seq::<NodeAction>::empty() =~= seq![]);
}

/// A node's gravity field comes first: when the field is spawned (or warned
/// about), that is the node's first action, whether or not its geometry
/// then fails, and the node's error is its geometry's error.
pub proof fn lemma_field_before_geometry(extras: NodeExtras, mesh: MeshLookup)
    ensures
        gravity_field_plan_of(extras) == Ok::<Option<NodeAction>, LevelError>(None)
            ==> node_plan_of(NodeSource::Ready { extras, mesh }) == rigid_body_plan_of(
            extras.rigid_body,
            mesh,
        ),
        gravity_field_plan_of(extras) matches Ok(Some(_)) ==>
        ({
            let plan = node_plan_of(NodeSource::Ready { extras, mesh });
            let geometry = rigid_body_plan_of(extras.rigid_body, mesh);
            &&& plan.0.len() == 1 + geometry.0.len()
            &&& plan.0[0] == gravity_field_plan_of(extras)->Ok_0->0
            &&& forall|i: int| 0 <= i < geometry.0.len() ==> plan.0[i + 1] == geometry.0[i]
            &&& plan.1 == geometry.1
        }),
{
    let geometry = rigid_body_plan_of(extras.rigid_body, mesh);
    assert(Seq::<NodeAction>::empty() + geometry.0 =~= geometry.0);
}

/// A planet node: a sphere field with a radius and a priority is spawned
/// even when its rigid body then fails for want of a mesh.
pub proof fn lemma_sphere_field_survives_missing_mesh(extras: NodeExtras)
    requires
        extras.gravity_field == Some(0u8),
        extras.gravity_field_radius is Some,
        extras.gravity_field_priority is Some,
        extras.rigid_body matches Some(code) && code <= 2,
    ensures
        node_plan_of(NodeSource::Ready { extras, mesh: MeshLookup::NoMesh }) == (
            seq![
                NodeAction::SpawnGravityField {
                    field: GravityField {
                        field_type: GravityFieldType::Sphere,
                        priority: extras.gravity_field_priority->0,
                    },
                    collider: FieldCollider::Sphere { radius: extras.gravity_field_radius->0 },
                },
            ],
            Some(LevelError::RigidBodyWithoutMesh),
        ),
{
    lemma_gravity_field_shapes(extras);
    let plan = node_plan_of(NodeSource::Ready { extras, mesh: MeshLookup::NoMesh });
    assert(plan.0 =~= seq![
        NodeAction::SpawnGravityField {
            field: GravityField {
                field_type: GravityFieldType::Sphere,
                priority: extras.gravity_field_priority->0,
            },
            collider: FieldCollider::Sphere { radius: extras.gravity_field_radius->0 },
        },
    ]);
}

/// A node that is not loaded, or whose properties cannot be read, does
/// nothing and fails with that error; a gravity-field error ends the node
/// before any action.
pub proof fn lemma_node_errors(source: NodeSource)
    ensures
        source is NotLoaded ==> node_plan_of(source) == (
            Seq::<NodeAction>::empty(),
            Some(LevelError::NodeNotLoaded),
        ),
        source is InvalidExtras ==> node_plan_of(source) == (
            Seq::<NodeAction>::empty(),
            Some(LevelError::InvalidExtras),
        ),
        source matches NodeSource::Ready { extras, mesh } && gravity_field_plan_of(extras) is Err
            ==> node_plan_of(source).0.len() == 0 && node_plan_of(source).1 == Some(
            gravity_field_plan_of(source->extras)->Err_0,
        ),
{
}

/// Adding a node to a level that has not failed appends that node's
/// effects, in order and tagged with its index, and the level fails exactly
/// when that node fails, at that node and with its error.
pub proof fn lemma_level_append_node(nodes: Seq<NodeSource>, node: NodeSource)
    requires
        nodes.len() < usize::MAX,
        level_plan_of(nodes).1 is None,
    ensures
        ({
            let before = level_plan_of(nodes);
            let after = level_plan_of(nodes.push(node));
            let own = node_plan_of(node);
            &&& after.0.len() == before.0.len() + own.0.len()
            &&& forall|i: int| 0 <= i < before.0.len() ==> after.0[i] == before.0[i]
            &&& forall|i: int|
                0 <= i < own.0.len() ==> after.0[before.0.len() + i] == (LevelAction {
                    node: nodes.len() as usize,
                    action: own.0[i],
                })
            &&& after.1 is None <==> own.1 is None
            &&& own.1 matches Some(error) ==> after.1 == Some(
                LevelFailure { node: nodes.len() as usize, error },
            )
        }),
{
    let ext = nodes.push(node);
    assert(ext.drop_last() =~= nodes);
    assert(ext.last() == node);
}

/// The level fails at its first failing node: every node before it sets up
/// without error, and the failure carries that node's own error.
pub proof fn lemma_failure_at_first_failing_node(nodes: Seq<NodeSource>)
    requires
        nodes.len() <= usize::MAX,
    ensures
        level_plan_of(nodes).1 matches Some(failure) ==> {
            &&& failure.node < nodes.len()
            &&& node_plan_of(nodes[failure.node as int]).1 == Some(failure.error)
            &&& forall|j: int| 0 <= j < failure.node ==> (#[trigger] node_plan_of(nodes[j])).1 is None
        },
        level_plan_of(nodes).1 is None ==> forall|j: int|
            0 <= j < nodes.len() ==> (#[trigger] node_plan_of(nodes[j])).1 is None,
    decreases nodes.len(),
{
    if nodes.len() > 0 {
        let prev = nodes.drop_last();
        lemma_failure_at_first_failing_node(prev);
        assert forall|j: int| 0 <= j < prev.len() implies prev[j] == nodes[j] by {}
        let before = level_plan_of(prev);
        if before.1 is None {
            assert(nodes.last() == nodes[nodes.len() - 1]);
        }
    }
}

} // verus!
