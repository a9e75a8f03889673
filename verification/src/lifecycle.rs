//! The resource lifecycle order. Later-created objects may reference
//! earlier ones, so destruction must run in strict reverse-creation order;
//! the law below pins that relationship.

use vstd::prelude::*;

verus! {

/// The resource groups the engine owns, in the granularity teardown cares
/// about.
#[derive(Clone, Copy, Debug, PartialEq, Eq, Structural)]
pub enum ResourceKind {
    Context,
    Surface,
    Chain,
    RenderTargetDesc,
    DepthResources,
    Framebuffers,
    PipelineAndLayout,
    GeometryBuffers,
    CommandPool,
    SyncObjects,
}

/// The order resources are created in.
pub open spec fn spec_creation_order() -> Seq<ResourceKind> {
    seq![
        ResourceKind::Context,
        ResourceKind::Surface,
        ResourceKind::Chain,
        ResourceKind::RenderTargetDesc,
        ResourceKind::DepthResources,
        ResourceKind::Framebuffers,
        ResourceKind::PipelineAndLayout,
        ResourceKind::GeometryBuffers,
        ResourceKind::CommandPool,
        ResourceKind::SyncObjects,
    ]
}

/// The order resources are destroyed in at shutdown.
pub open spec fn spec_destruction_order() -> Seq<ResourceKind> {
    seq![
        ResourceKind::SyncObjects,
        ResourceKind::CommandPool,
        ResourceKind::GeometryBuffers,
        ResourceKind::PipelineAndLayout,
        ResourceKind::Framebuffers,
        ResourceKind::DepthResources,
        ResourceKind::RenderTargetDesc,
        ResourceKind::Chain,
        ResourceKind::Surface,
        ResourceKind::Context,
    ]
}

/// Law: destruction runs in strict reverse-creation order.
pub proof fn lemma_destruction_reverses_creation()
    ensures
        spec_destruction_order() =~= spec_creation_order().reverse(),
{
}

/// The creation order, for a driver that builds the resources.
pub fn creation_order() -> (r: Vec<ResourceKind>)
    ensures
        r@ == spec_creation_order(),
{
    let mut r: Vec<ResourceKind> = Vec::new();
    r.push(ResourceKind::Context);
    r.push(ResourceKind::Surface);
    r.push(ResourceKind::Chain);
    r.push(ResourceKind::RenderTargetDesc);
    r.push(ResourceKind::DepthResources);
    r.push(ResourceKind::Framebuffers);
    r.push(ResourceKind::PipelineAndLayout);
    r.push(ResourceKind::GeometryBuffers);
    r.push(ResourceKind::CommandPool);
    r.push(ResourceKind::SyncObjects);
    proof {
        assert(r@ =~= spec_creation_order());
    }
    r
}

/// The teardown order, for a driver that destroys the resources.
pub fn destruction_order() -> (r: Vec<ResourceKind>)
    ensures
        r@ == spec_destruction_order(),
        r@ == spec_creation_order().reverse(),
{
    let mut r: Vec<ResourceKind> = Vec::new();
    r.push(ResourceKind::SyncObjects);
    r.push(ResourceKind::CommandPool);
    r.push(ResourceKind::GeometryBuffers);
    r.push(ResourceKind::PipelineAndLayout);
    r.push(ResourceKind::Framebuffers);
    r.push(ResourceKind::DepthResources);
    r.push(ResourceKind::RenderTargetDesc);
    r.push(ResourceKind::Chain);
    r.push(ResourceKind::Surface);
    r.push(ResourceKind::Context);
    proof {
        assert(r@ =~= spec_destruction_order());
        lemma_destruction_reverses_creation();
    }
    r
}

} // verus!
