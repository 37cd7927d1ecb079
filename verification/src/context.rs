//! The backend context and its lifecycle.
//!
//! The context owns every handle the bring-up pipeline produces, as opaque
//! handle values. Each builder stage records its results exactly once, and
//! only after the stage it depends on has run; teardown walks the populated
//! handles in exact reverse creation order and clears the context, so that a
//! context left half-built by a failed bring-up is torn down safely and a
//! second teardown destroys nothing.

use vstd::prelude::*;

use crate::swapchain::Extent2D;
use crate::swapchain::SurfaceFormat;

verus! {

/// One destroy call of teardown, with the handle it destroys.
#[derive(Clone, Copy, Debug, PartialEq, Eq, Structural)]
pub enum DestroyAction {
    Pipeline(u64),
    PipelineLayout(u64),
    RenderPass(u64),
    ImageView(u64),
    Swapchain(u64),
    Device(u64),
    Surface(u64),
    DebugMessenger(u64),
    Instance(u64),
}

/// The handles and negotiated values the bring-up pipeline produces, each
/// absent until its producing stage has run. The physical device, the queues
/// and the swapchain images are borrowed from their owners and are not
/// destroyed; the rest is owned and torn down in reverse creation order.
#[derive(Clone, Debug)]
pub struct BackendContext {
    pub instance: Option<u64>,
    pub messenger: Option<u64>,
    pub surface: Option<u64>,
    pub physical_device: Option<u64>,
    pub device: Option<u64>,
    pub graphics_queue: Option<u64>,
    pub present_queue: Option<u64>,
    pub swapchain: Option<u64>,
    pub swapchain_images: Vec<u64>,
    pub swapchain_image_views: Vec<u64>,
    pub swapchain_format: Option<SurfaceFormat>,
    pub swapchain_extent: Option<Extent2D>,
    pub render_pass: Option<u64>,
    pub pipeline_layout: Option<u64>,
    pub pipeline: Option<u64>,
}

/// The destroy call for one owned handle slot, or nothing when the slot was
/// never populated.
pub open spec fn destroy_opt(
    handle: Option<u64>,
    action: spec_fn(u64) -> DestroyAction,
) -> Seq<DestroyAction> {
    match handle {
        Some(h) => seq![action(h)],
        None => Seq::empty(),
    }
}

/// The destroy calls for the swapchain image views, in creation order.
pub open spec fn view_actions(views: Seq<u64>) -> Seq<DestroyAction> {
    views.map_values(|h: u64| DestroyAction::ImageView(h))
}

impl BackendContext {
    /// Nothing has been created (or everything has been destroyed).
    pub open spec fn cleared(self) -> bool {
        &&& self.instance is None
        &&& self.messenger is None
        &&& self.surface is None
        &&& self.physical_device is None
        &&& self.device is None
        &&& self.graphics_queue is None
        &&& self.present_queue is None
        &&& self.swapchain is None
        &&& self.swapchain_images@.len() == 0
        &&& self.swapchain_image_views@.len() == 0
        &&& self.swapchain_format is None
        &&& self.swapchain_extent is None
        &&& self.render_pass is None
        &&& self.pipeline_layout is None
        &&& self.pipeline is None
    }

    /// The destroy calls that precede the image views: pipeline, pipeline
    /// layout, render pass.
    pub open spec fn teardown_head(self) -> Seq<DestroyAction> {
        destroy_opt(self.pipeline, |h: u64| DestroyAction::Pipeline(h)) + destroy_opt(
            self.pipeline_layout,
            |h: u64| DestroyAction::PipelineLayout(h),
        ) + destroy_opt(self.render_pass, |h: u64| DestroyAction::RenderPass(h))
    }

    /// The destroy calls that follow the image views: swapchain, device,
    /// surface, debug messenger, instance.
    pub open spec fn teardown_tail(self) -> Seq<DestroyAction> {
        destroy_opt(self.swapchain, |h: u64| DestroyAction::Swapchain(h)) + destroy_opt(
            self.device,
            |h: u64| DestroyAction::Device(h),
        ) + destroy_opt(self.surface, |h: u64| DestroyAction::Surface(h)) + destroy_opt(
            self.messenger,
            |h: u64| DestroyAction::DebugMessenger(h),
        ) + destroy_opt(self.instance, |h: u64| DestroyAction::Instance(h))
    }

    /// Exactly the destroy calls teardown makes on this context: one per
    /// populated owned handle, in exact reverse creation order.
    pub open spec fn teardown_seq(self) -> Seq<DestroyAction> {
        self.teardown_head() + view_actions(self.swapchain_image_views@) + self.teardown_tail()
    }

    /// An empty context: the state before bring-up and after teardown.
    pub fn new() -> (r: BackendContext)
        ensures
            r.cleared(),
    {
        BackendContext {
            instance: None,
            messenger: None,
            surface: None,
            physical_device: None,
            device: None,
            graphics_queue: None,
            present_queue: None,
            swapchain: None,
            swapchain_images: Vec::new(),
            swapchain_image_views: Vec::new(),
            swapchain_format: None,
            swapchain_extent: None,
            render_pass: None,
            pipeline_layout: None,
            pipeline: None,
        }
    }

    /// Records the created instance and, when validation is on, its debug
    /// messenger: the first stage.
    pub fn record_instance(&mut self, instance: u64, messenger: Option<u64>)
        requires
            old(self).instance is None,
            old(self).messenger is None,
        ensures
            *final(self) == (BackendContext {
                instance: Some(instance),
                messenger,
                ..*old(self)
            }),
    {
        self.instance = Some(instance);
        self.messenger = messenger;
    }

    /// Records the surface, acquired from the windowing collaborator once the
    /// instance exists.
    pub fn record_surface(&mut self, surface: u64)
        requires
            old(self).instance is Some,
            old(self).surface is None,
        ensures
            *final(self) == (BackendContext { surface: Some(surface), ..*old(self) }),
    {
        self.surface = Some(surface);
    }

    /// Records the selected physical device.
    pub fn record_physical_device(&mut self, physical_device: u64)
        requires
            old(self).instance is Some,
            old(self).surface is Some,
            old(self).physical_device is None,
        ensures
            *final(self) == (BackendContext {
                physical_device: Some(physical_device),
                ..*old(self)
            }),
    {
        self.physical_device = Some(physical_device);
    }

    /// Records the logical device and the queue handle fetched for each
    /// required role.
    pub fn record_device(&mut self, device: u64, graphics_queue: u64, present_queue: u64)
        requires
            old(self).physical_device is Some,
            old(self).device is None,
        ensures
            *final(self) == (BackendContext {
                device: Some(device),
                graphics_queue: Some(graphics_queue),
                present_queue: Some(present_queue),
                ..*old(self)
            }),
    {
        self.device = Some(device);
        self.graphics_queue = Some(graphics_queue);
        self.present_queue = Some(present_queue);
    }

    /// Records the created swapchain, its images, and the negotiated format
    /// and extent it was created with.
    pub fn record_swapchain(
        &mut self,
        swapchain: u64,
        images: Vec<u64>,
        format: SurfaceFormat,
        extent: Extent2D,
    )
        requires
            old(self).device is Some,
            old(self).swapchain is None,
            old(self).swapchain_images@.len() == 0,
        ensures
            *final(self) == (BackendContext {
                swapchain: Some(swapchain),
                swapchain_images: images,
                swapchain_format: Some(format),
                swapchain_extent: Some(extent),
                ..*old(self)
            }),
    {
        self.swapchain = Some(swapchain);
        self.swapchain_images = images;
        self.swapchain_format = Some(format);
        self.swapchain_extent = Some(extent);
    }

    /// Records the image views, one per swapchain image.
    pub fn record_image_views(&mut self, views: Vec<u64>)
        requires
            old(self).swapchain is Some,
            old(self).swapchain_image_views@.len() == 0,
            views@.len() == old(self).swapchain_images@.len(),
        ensures
            *final(self) == (BackendContext { swapchain_image_views: views, ..*old(self) }),
    {
        self.swapchain_image_views = views;
    }

    /// Records the render pass.
    pub fn record_render_pass(&mut self, render_pass: u64)
        requires
            old(self).device is Some,
            old(self).render_pass is None,
        ensures
            *final(self) == (BackendContext { render_pass: Some(render_pass), ..*old(self) }),
    {
        self.render_pass = Some(render_pass);
    }

    /// Records the pipeline layout and the pipeline.
    pub fn record_pipeline(&mut self, pipeline_layout: u64, pipeline: u64)
        requires
            old(self).render_pass is Some,
            old(self).pipeline_layout is None,
            old(self).pipeline is None,
        ensures
            *final(self) == (BackendContext {
                pipeline_layout: Some(pipeline_layout),
                pipeline: Some(pipeline),
                ..*old(self)
            }),
    {
        self.pipeline_layout = Some(pipeline_layout);
        self.pipeline = Some(pipeline);
    }

    /// Plans the destroy calls for every populated owned handle, in exact
    /// reverse creation order, and clears the context. Total on any context,
    /// however far bring-up progressed: a never-populated handle produces no
    /// call.
    pub fn teardown(&mut self) -> (actions: Vec<DestroyAction>)
        ensures
            actions@ == old(self).teardown_seq(),
            final(self).cleared(),
    {
        let mut actions = head_destroys(self);
        let mut views = view_destroys(&self.swapchain_image_views);
        let mut tail = tail_destroys(self);
        actions.append(&mut views);
        actions.append(&mut tail);
        *self = BackendContext::new();
        actions
    }
}

/// The destroy calls of the pipeline, pipeline layout and render pass slots.
fn head_destroys(c: &BackendContext) -> (actions: Vec<DestroyAction>)
    ensures
        actions@ == c.teardown_head(),
{
    let mut actions: Vec<DestroyAction> = Vec::new();
    match c.pipeline {
        Some(h) => actions.push(DestroyAction::Pipeline(h)),
        None => {},
    }
    match c.pipeline_layout {
        Some(h) => actions.push(DestroyAction::PipelineLayout(h)),
        None => {},
    }
    match c.render_pass {
        Some(h) => actions.push(DestroyAction::RenderPass(h)),
        None => {},
    }
    proof {
        assert(actions@ =~= c.teardown_head());
    }
    actions
}

/// The destroy calls of the image views, in creation order.
fn view_destroys(views: &Vec<u64>) -> (actions: Vec<DestroyAction>)
    ensures
        actions@ == view_actions(views@),
{
    let mut actions: Vec<DestroyAction> = Vec::new();
    let mut i: usize = 0;
    while i < views.len()
        invariant
            i <= views@.len(),
            actions@.len() == i,
            forall|j: int| 0 <= j < i ==> actions@[j] == DestroyAction::ImageView(views@[j]),
        decreases views@.len() - i,
    {
        actions.push(DestroyAction::ImageView(views[i]));
        i = i + 1;
    }
    proof {
        assert(actions@ =~= view_actions(views@));
    }
    actions
}

/// The destroy calls of the swapchain, device, surface, debug messenger and
/// instance slots.
fn tail_destroys(c: &BackendContext) -> (actions: Vec<DestroyAction>)
    ensures
        actions@ == c.teardown_tail(),
{
    let mut actions: Vec<DestroyAction> = Vec::new();
    match c.swapchain {
        Some(h) => actions.push(DestroyAction::Swapchain(h)),
        None => {},
    }
    match c.device {
        Some(h) => actions.push(DestroyAction::Device(h)),
        None => {},
    }
    match c.surface {
        Some(h) => actions.push(DestroyAction::Surface(h)),
        None => {},
    }
    match c.messenger {
        Some(h) => actions.push(DestroyAction::DebugMessenger(h)),
        None => {},
    }
    match c.instance {
        Some(h) => actions.push(DestroyAction::Instance(h)),
        None => {},
    }
    proof {
        assert(actions@ =~= c.teardown_tail());
    }
    actions
}

/// Teardown is idempotent: on a cleared context — what any teardown leaves
/// behind — it plans no destroy call at all.
pub proof fn lemma_teardown_idempotent(c: BackendContext)
    requires
        c.cleared(),
    ensures
        c.teardown_seq() == Seq::<DestroyAction>::empty(),
{
    assert(c.teardown_seq() =~= Seq::<DestroyAction>::empty());
}

} // verus!
