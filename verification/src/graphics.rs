use vstd::prelude::*;

use crate::swapchain::{Extent2D, Swapchain, SwapchainBundle, SwapchainImage};

verus! {

/// The single-subpass render pass: one color attachment in the chain's
/// format that is cleared on load and stored on completion.
#[derive(Clone, Copy, Debug, PartialEq, Eq, Structural)]
pub struct RenderPassDesc {
    /// Color format of the sole attachment.
    pub format: u32,
}

/// One framebuffer, wrapping the default view of one swapchain image and
/// bound to the fixed render pass. Its lifetime is tied to the chain
/// generation it was built against.
#[derive(Clone, Copy, Debug, PartialEq, Eq, Structural)]
pub struct Framebuffer {
    /// Chain generation of the wrapped image.
    pub generation: u64,
    /// Index of the wrapped image within its chain.
    pub image_index: u32,
    /// Pixel size of the wrapped image.
    pub extent: Extent2D,
}

/// The graphics pipeline: compiled stages plus fixed-function state, with
/// the viewport baked to the chain's extent (not dynamic), so it must be
/// rebuilt whenever the extent changes.
#[derive(Clone, Copy, Debug, PartialEq, Eq, Structural)]
pub struct Pipeline {
    /// The baked-in viewport, exactly the chain's current extent.
    pub viewport: Extent2D,
    /// Chain generation the pipeline was built for.
    pub generation: u64,
}

/// Render pass, framebuffers and pipeline of one swapchain generation:
/// created together, discarded and rebuilt together whenever the chain
/// is replaced.
#[derive(Clone, Debug)]
pub struct FrameGraphics {
    pub render_pass: RenderPassDesc,
    pub framebuffers: Vec<Framebuffer>,
    pub pipeline: Pipeline,
    /// Chain generation this state belongs to.
    pub generation: u64,
}

impl FrameGraphics {
    /// The graphics state fits a chain: same generation, render pass in the
    /// chain's format, viewport at the chain's extent, and one framebuffer
    /// per image, each bound 1:1 to the image of its index at the chain's
    /// extent.
    pub open spec fn matches_swapchain(self, sc: Swapchain) -> bool {
        &&& self.generation == sc.generation
        &&& self.render_pass.format == sc.format.format
        &&& self.pipeline.viewport == sc.extent
        &&& self.pipeline.generation == sc.generation
        &&& self.framebuffers@.len() == sc.image_count
        &&& forall|i: int|
            0 <= i < self.framebuffers@.len() ==> self.framebuffers@[i] == (Framebuffer {
                generation: sc.generation,
                image_index: i as u32,
                extent: sc.extent,
            })
    }

    /// Builds the graphics state of one chain generation. Failure of the
    /// outside construction (shader compilation, layout) is reported by the
    /// shell that performs it and is fatal for the current attempt; the
    /// metadata built here is total.
    pub fn build(bundle: &SwapchainBundle) -> (g: FrameGraphics)
        requires
            bundle.wf(),
        ensures
            g.matches_swapchain(bundle.swapchain),
    {
        let sc = bundle.swapchain;
        let framebuffers = create_framebuffers(&bundle.images);
        assert forall|i: int| 0 <= i < framebuffers@.len() implies framebuffers@[i] == (Framebuffer {
            generation: sc.generation,
            image_index: i as u32,
            extent: sc.extent,
        }) by {
            assert(bundle.images@[i] == (SwapchainImage {
                generation: sc.generation,
                index: i as u32,
                extent: sc.extent,
            }));
        }
        FrameGraphics {
            render_pass: RenderPassDesc { format: sc.format.format },
            framebuffers,
            pipeline: Pipeline { viewport: sc.extent, generation: sc.generation },
            generation: sc.generation,
        }
    }
}

/// Builds one framebuffer per swapchain image, each wrapping the default
/// view of the image of its index.
pub fn create_framebuffers(images: &Vec<SwapchainImage>) -> (fbs: Vec<Framebuffer>)
    ensures
        fbs@.len() == images@.len(),
        forall|i: int|
            0 <= i < fbs@.len() ==> fbs@[i] == (Framebuffer {
                generation: images@[i].generation,
                image_index: images@[i].index,
                extent: images@[i].extent,
            }),
{
    let mut fbs: Vec<Framebuffer> = Vec::new();
    let mut i: usize = 0;
    while i < images.len()
        invariant
            0 <= i <= images@.len(),
            fbs@.len() == i,
            forall|j: int|
                0 <= j < fbs@.len() ==> fbs@[j] == (Framebuffer {
                    generation: images@[j].generation,
                    image_index: images@[j].index,
                    extent: images@[j].extent,
                }),
        decreases images@.len() - i,
    {
        let img = images[i];
        fbs.push(Framebuffer { generation: img.generation, image_index: img.index, extent: img.extent });
        i += 1;
    }
    fbs
}


} // verus!
