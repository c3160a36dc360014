//! Swapchain configuration choices and the swapchain resource set.

use vstd::prelude::*;

verus! {

/// `VK_FORMAT_B8G8R8A8_SRGB`: 8-bit BGRA with sRGB encoding.
pub const FORMAT_B8G8R8A8_SRGB: i32 = 50;

/// `VK_COLOR_SPACE_SRGB_NONLINEAR_KHR`.
pub const COLOR_SPACE_SRGB_NONLINEAR: i32 = 0;

/// `VK_PRESENT_MODE_IMMEDIATE_KHR`.
pub const PRESENT_MODE_IMMEDIATE: i32 = 0;

/// `VK_PRESENT_MODE_MAILBOX_KHR`: low-latency, non-blocking (triple-buffered).
pub const PRESENT_MODE_MAILBOX: i32 = 1;

/// `VK_PRESENT_MODE_FIFO_KHR`: vsync-locked, always supported.
pub const PRESENT_MODE_FIFO: i32 = 2;

/// Width a surface reports as its current extent when the window decides it.
pub const EXTENT_UNDEFINED: u32 = 0xFFFF_FFFF;

/// A pixel format together with its colour space, as raw Vulkan codes.
#[derive(Clone, Copy, Debug, PartialEq, Eq, Structural)]
pub struct SurfaceFormat {
    pub format: i32,
    pub color_space: i32,
}

/// A two-dimensional size in pixels.
#[derive(Clone, Copy, Debug, PartialEq, Eq, Structural)]
pub struct Extent2D {
    pub width: u32,
    pub height: u32,
}

/// What a surface reports it can do.
#[derive(Clone, Copy, Debug, PartialEq, Eq, Structural)]
pub struct SurfaceCapabilities {
    pub min_image_count: u32,
    /// Zero means "no upper bound".
    pub max_image_count: u32,
    pub current_extent: Extent2D,
    pub min_image_extent: Extent2D,
    pub max_image_extent: Extent2D,
    pub current_transform: u32,
}

pub open spec fn is_preferred_format(f: SurfaceFormat) -> bool {
    f.format == FORMAT_B8G8R8A8_SRGB && f.color_space == COLOR_SPACE_SRGB_NONLINEAR
}

/// The preferred 8-bit BGRA sRGB format when offered, else the first entry.
pub open spec fn chosen_format(formats: Seq<SurfaceFormat>) -> SurfaceFormat {
    if exists|i: int| 0 <= i < formats.len() && is_preferred_format(#[trigger] formats[i]) {
        SurfaceFormat { format: FORMAT_B8G8R8A8_SRGB, color_space: COLOR_SPACE_SRGB_NONLINEAR }
    } else {
        formats[0]
    }
}

/// Mailbox when offered, else FIFO.
pub open spec fn chosen_present_mode(modes: Seq<i32>) -> i32 {
    if modes.contains(PRESENT_MODE_MAILBOX) {
        PRESENT_MODE_MAILBOX
    } else {
        PRESENT_MODE_FIFO
    }
}

pub open spec fn clamped(v: u32, lo: u32, hi: u32) -> u32 {
    if v < lo {
        lo
    } else if v > hi {
        hi
    } else {
        v
    }
}

/// The surface's current extent, or the window size clamped to the surface's
/// bounds when the current extent is undefined.
pub open spec fn chosen_extent(caps: SurfaceCapabilities, window: Extent2D) -> Extent2D {
    if caps.current_extent.width != EXTENT_UNDEFINED {
        caps.current_extent
    } else {
        Extent2D {
            width: clamped(window.width, caps.min_image_extent.width, caps.max_image_extent.width),
            height: clamped(
                window.height,
                caps.min_image_extent.height,
                caps.max_image_extent.height,
            ),
        }
    }
}

/// One image more than the minimum, but no more than a nonzero maximum.
pub open spec fn chosen_image_count(caps: SurfaceCapabilities) -> int {
    if caps.max_image_count > 0 && caps.min_image_count + 1 > caps.max_image_count {
        caps.max_image_count as int
    } else {
        caps.min_image_count + 1
    }
}

/// Picks the surface format: the 8-bit BGRA sRGB / sRGB-nonlinear entry when
/// the list holds one, otherwise the first entry.
pub fn choose_swap_surface_format(formats: &Vec<SurfaceFormat>) -> (r: SurfaceFormat)
    requires
        formats@.len() > 0,
    ensures
        r == chosen_format(formats@),
{
    let mut i: usize = 0;
    while i < formats.len()
        invariant
            i <= formats@.len(),
            forall|j: int| 0 <= j < i ==> !is_preferred_format(#[trigger] formats@[j]),
        decreases formats@.len() - i,
    {
        let f = formats[i];
        if f.format == FORMAT_B8G8R8A8_SRGB && f.color_space == COLOR_SPACE_SRGB_NONLINEAR {
            return f;
        }
        i = i + 1;
    }
    formats[0]
}

/// Picks the present mode: mailbox when offered, otherwise FIFO.
pub fn choose_swap_present_mode(present_modes: &Vec<i32>) -> (r: i32)
    ensures
        r == chosen_present_mode(present_modes@),
{
    let mut i: usize = 0;
    while i < present_modes.len()
        invariant
            i <= present_modes@.len(),
            forall|j: int| 0 <= j < i ==> present_modes@[j] != PRESENT_MODE_MAILBOX,
        decreases present_modes@.len() - i,
    {
        if present_modes[i] == PRESENT_MODE_MAILBOX {
            return PRESENT_MODE_MAILBOX;
        }
        i = i + 1;
    }
    PRESENT_MODE_FIFO
}

fn clamp_u32(v: u32, lo: u32, hi: u32) -> (r: u32)
    ensures
        r == clamped(v, lo, hi),
{
    if v < lo {
        lo
    } else if v > hi {
        hi
    } else {
        v
    }
}

/// Picks the swapchain extent from the surface capabilities and the window's
/// size in pixels.
pub fn choose_swap_extent(capabilities: &SurfaceCapabilities, window: Extent2D) -> (r: Extent2D)
    ensures
        r == chosen_extent(*capabilities, window),
{
    if capabilities.current_extent.width != EXTENT_UNDEFINED {
        capabilities.current_extent
    } else {
        Extent2D {
            width: clamp_u32(
                window.width,
                capabilities.min_image_extent.width,
                capabilities.max_image_extent.width,
            ),
            height: clamp_u32(
                window.height,
                capabilities.min_image_extent.height,
                capabilities.max_image_extent.height,
            ),
        }
    }
}

/// Picks how many images the swapchain asks for.
pub fn choose_image_count(capabilities: &SurfaceCapabilities) -> (r: u32)
    requires
        chosen_image_count(*capabilities) <= u32::MAX,
    ensures
        r == chosen_image_count(*capabilities),
{
    if capabilities.max_image_count > 0 && capabilities.min_image_count >= capabilities.max_image_count {
        capabilities.max_image_count
    } else {
        capabilities.min_image_count + 1
    }
}

/// How swapchain images are shared between the graphics and present queues.
#[derive(Clone, Copy, Debug, PartialEq, Eq, Structural)]
pub enum SharingMode {
    /// One queue family uses the images.
    Exclusive,
    /// Images are shared across exactly these two queue families.
    Concurrent { graphics_family: usize, present_family: usize },
}

pub open spec fn chosen_sharing(graphics_family: usize, present_family: usize) -> SharingMode {
    if graphics_family == present_family {
        SharingMode::Exclusive
    } else {
        SharingMode::Concurrent { graphics_family, present_family }
    }
}

/// Picks the sharing mode: exclusive when both queue families coincide.
pub fn choose_sharing_mode(graphics_family: usize, present_family: usize) -> (r: SharingMode)
    ensures
        r == chosen_sharing(graphics_family, present_family),
{
    if graphics_family == present_family {
        SharingMode::Exclusive
    } else {
        SharingMode::Concurrent { graphics_family, present_family }
    }
}

/// What a surface supports on one adapter: its capabilities, formats and
/// present modes.
#[derive(Clone, Debug)]
pub struct SwapchainSupportDetails {
    pub capabilities: SurfaceCapabilities,
    pub formats: Vec<SurfaceFormat>,
    pub present_modes: Vec<i32>,
}

impl SwapchainSupportDetails {
    pub fn new(
        capabilities: SurfaceCapabilities,
        formats: Vec<SurfaceFormat>,
        present_modes: Vec<i32>,
    ) -> (r: Self)
        ensures
            r.capabilities == capabilities,
            r.formats@ == formats@,
            r.present_modes@ == present_modes@,
    {
        SwapchainSupportDetails { capabilities, formats, present_modes }
    }
}

/// Everything the swapchain is created with.
#[derive(Clone, Copy, Debug, PartialEq, Eq, Structural)]
pub struct SwapchainPlan {
    pub format: SurfaceFormat,
    pub present_mode: i32,
    pub extent: Extent2D,
    pub image_count: u32,
    pub sharing: SharingMode,
    pub pre_transform: u32,
}

pub open spec fn planned(
    support: SwapchainSupportDetails,
    window: Extent2D,
    graphics_family: usize,
    present_family: usize,
) -> SwapchainPlan {
    SwapchainPlan {
        format: chosen_format(support.formats@),
        present_mode: chosen_present_mode(support.present_modes@),
        extent: chosen_extent(support.capabilities, window),
        image_count: chosen_image_count(support.capabilities) as u32,
        sharing: chosen_sharing(graphics_family, present_family),
        pre_transform: support.capabilities.current_transform,
    }
}

/// Decides every parameter of a swapchain for a surface, the window's size and
/// the graphics and present queue families. A zero-sized window is accepted.
pub fn plan_swapchain(
    support: &SwapchainSupportDetails,
    window: Extent2D,
    graphics_family: usize,
    present_family: usize,
) -> (r: SwapchainPlan)
    requires
        support.formats@.len() > 0,
        chosen_image_count(support.capabilities) <= u32::MAX,
    ensures
        r == planned(*support, window, graphics_family, present_family),
{
    SwapchainPlan {
        format: choose_swap_surface_format(&support.formats),
        present_mode: choose_swap_present_mode(&support.present_modes),
        extent: choose_swap_extent(&support.capabilities, window),
        image_count: choose_image_count(&support.capabilities),
        sharing: choose_sharing_mode(graphics_family, present_family),
        pre_transform: support.capabilities.current_transform,
    }
}

/// A swapchain-derived object, named by its raw handle.
#[derive(Clone, Copy, Debug, PartialEq, Eq, Structural)]
pub enum SwapchainResource {
    Framebuffer(u64),
    ImageView(u64),
    Swapchain(u64),
}

/// Why a set of swapchain resources was not taken.
#[derive(Clone, Copy, Debug, PartialEq, Eq, Structural)]
pub enum SwapchainError {
    /// The image, view and framebuffer lists differ in length.
    CountMismatch,
    /// The previous swapchain has not been retired yet.
    NotRetired,
}

/// One presentable image with the view and the framebuffer built on it.
#[derive(Clone, Copy, Debug, PartialEq, Eq, Structural)]
pub struct PresentImage {
    pub image: u64,
    pub view: u64,
    pub framebuffer: u64,
}

/// The abstract content of a [`SwapchainState`].
pub ghost struct SwapchainModel {
    /// The live swapchain object, if any.
    pub swapchain: Option<u64>,
    pub plan: SwapchainPlan,
    pub images: Seq<PresentImage>,
    pub generation: nat,
}

/// The presentable images of one swapchain, each held together with its one
/// view and one framebuffer, and a generation counter that each recreation
/// advances.
pub struct SwapchainState {
    swapchain: Option<u64>,
    plan: SwapchainPlan,
    images: Vec<PresentImage>,
    generation: u64,
}

/// Pairs the i-th image with the i-th view and the i-th framebuffer.
pub open spec fn zipped(images: Seq<u64>, views: Seq<u64>, framebuffers: Seq<u64>) -> Seq<PresentImage> {
    Seq::new(
        images.len(),
        |i: int| PresentImage { image: images[i], view: views[i], framebuffer: framebuffers[i] },
    )
}

/// The order in which a swapchain's objects are destroyed: every framebuffer,
/// then every image view, then the swapchain object.
pub open spec fn teardown_sequence(m: SwapchainModel) -> Seq<SwapchainResource> {
    m.images.map_values(|p: PresentImage| SwapchainResource::Framebuffer(p.framebuffer))
        + m.images.map_values(|p: PresentImage| SwapchainResource::ImageView(p.view))
        + match m.swapchain {
        Some(h) => seq![SwapchainResource::Swapchain(h)],
        None => Seq::<SwapchainResource>::empty(),
    }
}

impl View for SwapchainState {
    type V = SwapchainModel;

    closed spec fn view(&self) -> SwapchainModel {
        SwapchainModel {
            swapchain: self.swapchain,
            plan: self.plan,
            images: self.images@,
            generation: self.generation as nat,
        }
    }
}

fn zip_images(images: &Vec<u64>, views: &Vec<u64>, framebuffers: &Vec<u64>) -> (r: Option<
    Vec<PresentImage>,
>)
    ensures
        r is None <==> (images@.len() != views@.len() || images@.len() != framebuffers@.len()),
        r matches Some(v) ==> v@ == zipped(images@, views@, framebuffers@),
{
    if images.len() != views.len() || images.len() != framebuffers.len() {
        return None;
    }
    let mut out: Vec<PresentImage> = Vec::new();
    let mut i: usize = 0;
    while i < images.len()
        invariant
            i <= images@.len(),
            images@.len() == views@.len(),
            images@.len() == framebuffers@.len(),
            out@ == zipped(images@, views@, framebuffers@).subrange(0, i as int),
        decreases images@.len() - i,
    {
        out.push(PresentImage { image: images[i], view: views[i], framebuffer: framebuffers[i] });
        i = i + 1;
        assert(out@ =~= zipped(images@, views@, framebuffers@).subrange(0, i as int));
    }
    assert(out@ =~= zipped(images@, views@, framebuffers@));
    Some(out)
}

impl SwapchainState {
    /// Takes a freshly created swapchain with its images, one view per image
    /// and one framebuffer per view. Fails when the three lists differ in length.
    pub fn new(
        swapchain: u64,
        plan: SwapchainPlan,
        images: Vec<u64>,
        image_views: Vec<u64>,
        framebuffers: Vec<u64>,
    ) -> (r: Result<Self, SwapchainError>)
        ensures
            r is Err <==> (images@.len() != image_views@.len() || images@.len()
                != framebuffers@.len()),
            r is Err ==> r->Err_0 == SwapchainError::CountMismatch,
            r matches Ok(st) ==> st@ == (SwapchainModel {
                swapchain: Some(swapchain),
                plan,
                images: zipped(images@, image_views@, framebuffers@),
                generation: 0,
            }),
    {
        match zip_images(&images, &image_views, &framebuffers) {
            None => Err(SwapchainError::CountMismatch),
            Some(entries) => Ok(
                SwapchainState { swapchain: Some(swapchain), plan, images: entries, generation: 0 },
            ),
        }
    }

    /// The live swapchain object, if it has not been retired.
    pub fn swapchain(&self) -> (r: Option<u64>)
        ensures
            r == self@.swapchain,
    {
        self.swapchain
    }

    pub fn plan(&self) -> (r: SwapchainPlan)
        ensures
            r == self@.plan,
    {
        self.plan
    }

    pub fn extent(&self) -> (r: Extent2D)
        ensures
            r == self@.plan.extent,
    {
        self.plan.extent
    }

    pub fn generation(&self) -> (r: u64)
        ensures
            r == self@.generation,
    {
        self.generation
    }

    /// How many presentable images the current swapchain has.
    pub fn image_count(&self) -> (r: usize)
        ensures
            r == self@.images.len(),
    {
        self.images.len()
    }

    /// The image at `image_index` with its view and framebuffer.
    pub fn image(&self, image_index: usize) -> (r: Option<PresentImage>)
        ensures
            r == (if image_index < self@.images.len() {
                Some(self@.images[image_index as int])
            } else {
                None
            }),
    {
        if image_index < self.images.len() {
            Some(self.images[image_index])
        } else {
            None
        }
    }

    /// The swapchain objects in the order they must be destroyed.
    pub fn teardown_order(&self) -> (r: Vec<SwapchainResource>)
        ensures
            r@ == teardown_sequence(self@),
    {
        let ghost fbs = self@.images.map_values(
            |p: PresentImage| SwapchainResource::Framebuffer(p.framebuffer),
        );
        let ghost views = self@.images.map_values(|p: PresentImage| SwapchainResource::ImageView(p.view));
        let mut out: Vec<SwapchainResource> = Vec::new();
        let mut i: usize = 0;
        while i < self.images.len()
            invariant
                i <= self.images@.len(),
                fbs == self@.images.map_values(
                    |p: PresentImage| SwapchainResource::Framebuffer(p.framebuffer),
                ),
                out@ == fbs.subrange(0, i as int),
            decreases self.images@.len() - i,
        {
            out.push(SwapchainResource::Framebuffer(self.images[i].framebuffer));
            i = i + 1;
            assert(out@ =~= fbs.subrange(0, i as int));
        }
        assert(out@ =~= fbs);
        let mut j: usize = 0;
        while j < self.images.len()
            invariant
                j <= self.images@.len(),
                views == self@.images.map_values(|p: PresentImage| SwapchainResource::ImageView(p.view)),
                out@ == fbs + views.subrange(0, j as int),
            decreases self.images@.len() - j,
        {
            out.push(SwapchainResource::ImageView(self.images[j].view));
            j = j + 1;
            assert(out@ =~= fbs + views.subrange(0, j as int));
        }
        assert(views.subrange(0, j as int) =~= views);
        if let Some(h) = self.swapchain {
            out.push(SwapchainResource::Swapchain(h));
        }
        assert(out@ =~= teardown_sequence(self@));
        out
    }

    /// Gives up every swapchain object, in destruction order; afterwards the
    /// state holds no swapchain and no images. The plan and generation stay.
    pub fn retire(&mut self) -> (r: Vec<SwapchainResource>)
        ensures
            r@ == teardown_sequence(old(self)@),
            final(self)@ == (SwapchainModel {
                swapchain: None,
                images: Seq::empty(),
                ..old(self)@
            }),
    {
        let r = self.teardown_order();
        self.swapchain = None;
        self.images = Vec::new();
        r
    }

    /// Takes the objects of a recreated swapchain after the old one was
    /// retired, and advances the generation. Fails, changing nothing, when a
    /// swapchain is still live or the three lists differ in length.
    pub fn install(
        &mut self,
        swapchain: u64,
        plan: SwapchainPlan,
        images: Vec<u64>,
        image_views: Vec<u64>,
        framebuffers: Vec<u64>,
    ) -> (r: Result<(), SwapchainError>)
        requires
            old(self)@.generation < u64::MAX,
        ensures
            old(self)@.swapchain is Some ==> r == Err::<(), SwapchainError>(
                SwapchainError::NotRetired,
            ),
            old(self)@.swapchain is None && (images@.len() != image_views@.len() || images@.len()
                != framebuffers@.len()) ==> r == Err::<(), SwapchainError>(
                SwapchainError::CountMismatch,
            ),
            old(self)@.swapchain is None && images@.len() == image_views@.len() && images@.len()
                == framebuffers@.len() ==> r is Ok,
            r is Err ==> final(self)@ == old(self)@,
            r is Ok ==> final(self)@ == (SwapchainModel {
                swapchain: Some(swapchain),
                plan,
                images: zipped(images@, image_views@, framebuffers@),
                generation: old(self)@.generation + 1,
            }),
    {
        if self.swapchain.is_some() {
            return Err(SwapchainError::NotRetired);
        }
        match zip_images(&images, &image_views, &framebuffers) {
            None => Err(SwapchainError::CountMismatch),
            Some(entries) => {
                self.swapchain = Some(swapchain);
                self.plan = plan;
                self.images = entries;
                self.generation = self.generation + 1;
                Ok(())
            },
        }
    }
}

/// After a recreation the swapchain holds exactly as many entries as the
/// backend reported images, and each entry carries the image's own view and
/// framebuffer: images, views and framebuffers agree in number.
pub proof fn lemma_recreation_counts(images: Seq<u64>, views: Seq<u64>, framebuffers: Seq<u64>)
    requires
        images.len() == views.len(),
        images.len() == framebuffers.len(),
    ensures
        zipped(images, views, framebuffers).len() == images.len(),
        zipped(images, views, framebuffers).map_values(|p: PresentImage| p.image) == images,
        zipped(images, views, framebuffers).map_values(|p: PresentImage| p.view) == views,
        zipped(images, views, framebuffers).map_values(|p: PresentImage| p.framebuffer)
            == framebuffers,
{
    let z = zipped(images, views, framebuffers);
    assert(z.map_values(|p: PresentImage| p.image) =~= images);
    assert(z.map_values(|p: PresentImage| p.view) =~= views);
    assert(z.map_values(|p: PresentImage| p.framebuffer) =~= framebuffers);
}

} // verus!
