//! The order of the physics stages within one frame.

use vstd::prelude::*;

verus! {

/// One stage of the per-frame physics pipeline.
#[derive(Clone, Copy, Debug, PartialEq, Eq, Hash, Structural)]
pub enum PhysicsStage {
    /// Reset every force accumulator to zero.
    ClearForces,
    /// Add the gravitational force `m * g` to every body with a mass.
    ApplyGravity,
    /// Symplectic Euler step: `a = F / m`, `v += a * dt`, `x += v * dt`.
    Integrate,
    /// Copy physics positions into the render transforms.
    SyncTransforms,
}

/// The physics plugin: registers the physics settings and runs the stages
/// in a fixed chain every frame.
pub struct PhysicsPlugin;

impl PhysicsPlugin {
    /// The plugin's chain: clear forces, apply gravity, integrate, sync.
    pub open spec fn spec_stages() -> Seq<PhysicsStage> {
        seq![
            PhysicsStage::ClearForces,
            PhysicsStage::ApplyGravity,
            PhysicsStage::Integrate,
            PhysicsStage::SyncTransforms,
        ]
    }

    /// The stages that the plugin chains, in execution order.
    pub fn stages(&self) -> (order: Vec<PhysicsStage>)
        ensures
            order@ == Self::spec_stages(),
    {
        let order = vec![
            PhysicsStage::ClearForces,
            PhysicsStage::ApplyGravity,
            PhysicsStage::Integrate,
            PhysicsStage::SyncTransforms,
        ];
        assert(order@ =~= Self::spec_stages());
        order
    }
}

/// The sandbox's own physics chain: clear forces, apply gravity, integrate
/// (the render sync runs as a separate, unordered system).
pub open spec fn spec_sandbox_stages() -> Seq<PhysicsStage> {
    seq![PhysicsStage::ClearForces, PhysicsStage::ApplyGravity, PhysicsStage::Integrate]
}

/// The stages of the sandbox's physics chain, in execution order.
pub fn sandbox_stages() -> (order: Vec<PhysicsStage>)
    ensures
        order@ == spec_sandbox_stages(),
{
    let order = vec![PhysicsStage::ClearForces, PhysicsStage::ApplyGravity, PhysicsStage::Integrate];
    assert(order@ =~= spec_sandbox_stages());
    order
}

/// In `order`, stage `a` runs strictly before stage `b`.
pub open spec fn runs_before(order: Seq<PhysicsStage>, a: PhysicsStage, b: PhysicsStage) -> bool {
    exists|i: int, j: int| 0 <= i < j < order.len() && order[i] == a && order[j] == b
}

/// The "runs right before" links that chaining `stages` imposes: each stage
/// is ordered before the one that follows it.
pub fn chain_links(stages: &Vec<PhysicsStage>) -> (links: Vec<(PhysicsStage, PhysicsStage)>)
    ensures
        links.len() == if stages.len() == 0 { 0 } else { stages.len() - 1 },
        forall|i: int|
            0 <= i < links.len() ==> #[trigger] links[i] == (stages[i], stages[i + 1]),
{
    let mut links: Vec<(PhysicsStage, PhysicsStage)> = Vec::new();
    let mut i: usize = 1;
    while i < stages.len()
        invariant
            1 <= i,
            stages.len() == 0 ==> i == 1,
            stages.len() > 0 ==> i <= stages.len(),
            links.len() == i - 1,
            forall|k: int| 0 <= k < links.len() ==> #[trigger] links[k] == (stages[k], stages[k + 1]),
        decreases stages.len() - i,
    {
        links.push((stages[i - 1], stages[i]));
        i = i + 1;
    }
    links
}

/// Law: in the plugin's chain the force accumulators are cleared before any
/// force is applied, forces are applied before integration, the render sync
/// sees the integrated positions, and no stage runs twice in a frame.
pub proof fn law_plugin_order()
    ensures
        runs_before(PhysicsPlugin::spec_stages(), PhysicsStage::ClearForces, PhysicsStage::ApplyGravity),
        runs_before(PhysicsPlugin::spec_stages(), PhysicsStage::ApplyGravity, PhysicsStage::Integrate),
        runs_before(PhysicsPlugin::spec_stages(), PhysicsStage::Integrate, PhysicsStage::SyncTransforms),
        PhysicsPlugin::spec_stages().no_duplicates(),
        PhysicsPlugin::spec_stages().len() == 4,
{
    let s = PhysicsPlugin::spec_stages();
    assert(s[0] == PhysicsStage::ClearForces && s[1] == PhysicsStage::ApplyGravity);
    assert(s[2] == PhysicsStage::Integrate && s[3] == PhysicsStage::SyncTransforms);
}

/// Law: the sandbox's chain likewise clears forces before applying gravity
/// and applies gravity before integrating, each stage once, and leaves the
/// render sync out of the chain.
pub proof fn law_sandbox_order()
    ensures
        runs_before(spec_sandbox_stages(), PhysicsStage::ClearForces, PhysicsStage::ApplyGravity),
        runs_before(spec_sandbox_stages(), PhysicsStage::ApplyGravity, PhysicsStage::Integrate),
        spec_sandbox_stages().no_duplicates(),
        spec_sandbox_stages().len() == 3,
        !spec_sandbox_stages().contains(PhysicsStage::SyncTransforms),
{
    let s = spec_sandbox_stages();
    assert(s[0] == PhysicsStage::ClearForces && s[1] == PhysicsStage::ApplyGravity);
    assert(s[2] == PhysicsStage::Integrate);
    assert(!s.contains(PhysicsStage::SyncTransforms)) by {
        if s.contains(PhysicsStage::SyncTransforms) {
            let k = choose|k: int| 0 <= k < s.len() && s[k] == PhysicsStage::SyncTransforms;
        }
    }
}

} // verus!
