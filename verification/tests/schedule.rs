use physics_sandbox::schedule::{chain_links, sandbox_stages, PhysicsPlugin, PhysicsStage};

#[test]
fn plugin_chains_clear_gravity_integrate_sync() {
    assert_eq!(
        PhysicsPlugin.stages(),
        vec![
            PhysicsStage::ClearForces,
            PhysicsStage::ApplyGravity,
            PhysicsStage::Integrate,
            PhysicsStage::SyncTransforms,
        ]
    );
}

#[test]
fn sandbox_chains_clear_gravity_integrate() {
    assert_eq!(
        sandbox_stages(),
        vec![PhysicsStage::ClearForces, PhysicsStage::ApplyGravity, PhysicsStage::Integrate]
    );
}

#[test]
fn chain_links_pair_each_stage_with_the_next() {
    let links = chain_links(&PhysicsPlugin.stages());
    assert_eq!(
        links,
        vec![
            (PhysicsStage::ClearForces, PhysicsStage::ApplyGravity),
            (PhysicsStage::ApplyGravity, PhysicsStage::Integrate),
            (PhysicsStage::Integrate, PhysicsStage::SyncTransforms),
        ]
    );
}

#[test]
fn chain_links_of_short_chains() {
    assert!(chain_links(&vec![]).is_empty());
    assert!(chain_links(&vec![PhysicsStage::Integrate]).is_empty());
    assert_eq!(
        chain_links(&vec![PhysicsStage::Integrate, PhysicsStage::ClearForces]),
        vec![(PhysicsStage::Integrate, PhysicsStage::ClearForces)]
    );
}
