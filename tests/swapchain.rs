use vkframe::swapchain::{
    choose_image_count, choose_sharing_mode, choose_swap_extent, choose_swap_present_mode,
    choose_swap_surface_format, plan_swapchain, Extent2D, PresentImage, SharingMode,
    SurfaceCapabilities, SurfaceFormat, SwapchainError, SwapchainResource, SwapchainState,
    SwapchainSupportDetails, COLOR_SPACE_SRGB_NONLINEAR, EXTENT_UNDEFINED, FORMAT_B8G8R8A8_SRGB,
    PRESENT_MODE_FIFO, PRESENT_MODE_IMMEDIATE, PRESENT_MODE_MAILBOX,
};

const FORMAT_R8G8B8A8_UNORM: i32 = 37;
const FORMAT_B8G8R8A8_UNORM: i32 = 44;
const COLOR_SPACE_EXTENDED_SRGB_LINEAR: i32 = 1000104002;

fn caps(current: Extent2D, min_count: u32, max_count: u32) -> SurfaceCapabilities {
    SurfaceCapabilities {
        min_image_count: min_count,
        max_image_count: max_count,
        current_extent: current,
        min_image_extent: Extent2D { width: 64, height: 64 },
        max_image_extent: Extent2D { width: 1024, height: 1024 },
        current_transform: 1,
    }
}

#[test]
fn format_falls_back_to_first_entry() {
    let formats = vec![SurfaceFormat { format: FORMAT_R8G8B8A8_UNORM, color_space: COLOR_SPACE_SRGB_NONLINEAR }];
    assert_eq!(
        choose_swap_surface_format(&formats),
        SurfaceFormat { format: FORMAT_R8G8B8A8_UNORM, color_space: COLOR_SPACE_SRGB_NONLINEAR }
    );
}

#[test]
fn format_prefers_bgra_srgb_nonlinear_anywhere_in_list() {
    let formats = vec![
        SurfaceFormat { format: FORMAT_B8G8R8A8_UNORM, color_space: COLOR_SPACE_SRGB_NONLINEAR },
        SurfaceFormat { format: FORMAT_B8G8R8A8_SRGB, color_space: COLOR_SPACE_EXTENDED_SRGB_LINEAR },
        SurfaceFormat { format: FORMAT_B8G8R8A8_SRGB, color_space: COLOR_SPACE_SRGB_NONLINEAR },
    ];
    assert_eq!(
        choose_swap_surface_format(&formats),
        SurfaceFormat { format: FORMAT_B8G8R8A8_SRGB, color_space: COLOR_SPACE_SRGB_NONLINEAR }
    );
}

#[test]
fn format_needs_both_format_and_color_space() {
    let formats = vec![
        SurfaceFormat { format: FORMAT_B8G8R8A8_UNORM, color_space: COLOR_SPACE_SRGB_NONLINEAR },
        SurfaceFormat { format: FORMAT_B8G8R8A8_SRGB, color_space: COLOR_SPACE_EXTENDED_SRGB_LINEAR },
    ];
    assert_eq!(choose_swap_surface_format(&formats), formats[0]);
}

#[test]
fn present_mode_prefers_mailbox() {
    assert_eq!(choose_swap_present_mode(&vec![PRESENT_MODE_FIFO, PRESENT_MODE_MAILBOX]), PRESENT_MODE_MAILBOX);
}

#[test]
fn present_mode_falls_back_to_fifo() {
    assert_eq!(choose_swap_present_mode(&vec![PRESENT_MODE_FIFO]), PRESENT_MODE_FIFO);
    assert_eq!(choose_swap_present_mode(&vec![PRESENT_MODE_IMMEDIATE]), PRESENT_MODE_FIFO);
    assert_eq!(choose_swap_present_mode(&vec![]), PRESENT_MODE_FIFO);
}

#[test]
fn extent_clamped_when_current_is_undefined() {
    let c = caps(Extent2D { width: EXTENT_UNDEFINED, height: EXTENT_UNDEFINED }, 2, 0);
    assert_eq!(
        choose_swap_extent(&c, Extent2D { width: 1920, height: 1080 }),
        Extent2D { width: 1024, height: 1024 }
    );
    assert_eq!(
        choose_swap_extent(&c, Extent2D { width: 10, height: 500 }),
        Extent2D { width: 64, height: 500 }
    );
}

#[test]
fn extent_uses_defined_current_extent_verbatim() {
    let c = caps(Extent2D { width: 800, height: 600 }, 2, 0);
    assert_eq!(
        choose_swap_extent(&c, Extent2D { width: 1920, height: 1080 }),
        Extent2D { width: 800, height: 600 }
    );
}

#[test]
fn extent_accepts_zero_window() {
    let c = caps(Extent2D { width: EXTENT_UNDEFINED, height: EXTENT_UNDEFINED }, 2, 0);
    assert_eq!(choose_swap_extent(&c, Extent2D { width: 0, height: 0 }), Extent2D { width: 64, height: 64 });
}

#[test]
fn image_count_is_min_plus_one_clamped_to_nonzero_max() {
    let undefined = Extent2D { width: EXTENT_UNDEFINED, height: EXTENT_UNDEFINED };
    assert_eq!(choose_image_count(&caps(undefined, 2, 0)), 3);
    assert_eq!(choose_image_count(&caps(undefined, 2, 8)), 3);
    assert_eq!(choose_image_count(&caps(undefined, 3, 3)), 3);
    assert_eq!(choose_image_count(&caps(undefined, 1, 1)), 1);
}

#[test]
fn sharing_exclusive_only_for_one_family() {
    assert_eq!(choose_sharing_mode(0, 0), SharingMode::Exclusive);
    assert_eq!(
        choose_sharing_mode(0, 2),
        SharingMode::Concurrent { graphics_family: 0, present_family: 2 }
    );
}

#[test]
fn plan_combines_every_choice() {
    let support = SwapchainSupportDetails::new(
        caps(Extent2D { width: 800, height: 600 }, 2, 2),
        vec![SurfaceFormat { format: FORMAT_R8G8B8A8_UNORM, color_space: COLOR_SPACE_SRGB_NONLINEAR }],
        vec![PRESENT_MODE_FIFO, PRESENT_MODE_MAILBOX],
    );
    let plan = plan_swapchain(&support, Extent2D { width: 1920, height: 1080 }, 1, 1);
    assert_eq!(plan.format.format, FORMAT_R8G8B8A8_UNORM);
    assert_eq!(plan.present_mode, PRESENT_MODE_MAILBOX);
    assert_eq!(plan.extent, Extent2D { width: 800, height: 600 });
    assert_eq!(plan.image_count, 2);
    assert_eq!(plan.sharing, SharingMode::Exclusive);
    assert_eq!(plan.pre_transform, 1);
}

fn sample_plan() -> vkframe::swapchain::SwapchainPlan {
    let support = SwapchainSupportDetails::new(
        caps(Extent2D { width: 800, height: 600 }, 2, 0),
        vec![SurfaceFormat { format: FORMAT_B8G8R8A8_SRGB, color_space: COLOR_SPACE_SRGB_NONLINEAR }],
        vec![PRESENT_MODE_FIFO],
    );
    plan_swapchain(&support, Extent2D { width: 800, height: 600 }, 0, 0)
}

#[test]
fn new_state_rejects_mismatched_counts() {
    let r = SwapchainState::new(9, sample_plan(), vec![1, 2, 3], vec![11, 12], vec![21, 22, 23]);
    assert_eq!(r.err(), Some(SwapchainError::CountMismatch));
}

#[test]
fn recreation_takes_fresh_image_count() {
    let mut st = SwapchainState::new(9, sample_plan(), vec![1, 2], vec![11, 12], vec![21, 22]).unwrap();
    assert_eq!(st.image_count(), 2);
    assert_eq!(st.generation(), 0);
    let retired = st.retire();
    assert_eq!(
        retired,
        vec![
            SwapchainResource::Framebuffer(21),
            SwapchainResource::Framebuffer(22),
            SwapchainResource::ImageView(11),
            SwapchainResource::ImageView(12),
            SwapchainResource::Swapchain(9),
        ]
    );
    assert_eq!(st.image_count(), 0);
    assert_eq!(st.swapchain(), None);
    st.install(10, sample_plan(), vec![4, 5, 6], vec![14, 15, 16], vec![24, 25, 26]).unwrap();
    assert_eq!(st.image_count(), 3);
    assert_eq!(st.generation(), 1);
    assert_eq!(st.swapchain(), Some(10));
    assert_eq!(st.image(2), Some(PresentImage { image: 6, view: 16, framebuffer: 26 }));
    assert_eq!(st.image(3), None);
}

#[test]
fn install_refuses_while_live_or_mismatched() {
    let mut st = SwapchainState::new(9, sample_plan(), vec![1], vec![11], vec![21]).unwrap();
    assert_eq!(
        st.install(10, sample_plan(), vec![4], vec![14], vec![24]),
        Err(SwapchainError::NotRetired)
    );
    st.retire();
    assert_eq!(
        st.install(10, sample_plan(), vec![4, 5], vec![14], vec![24, 25]),
        Err(SwapchainError::CountMismatch)
    );
    assert_eq!(st.generation(), 0);
    assert_eq!(st.image_count(), 0);
}

#[test]
fn teardown_order_lists_framebuffers_views_then_swapchain() {
    let st = SwapchainState::new(7, sample_plan(), vec![1, 2], vec![11, 12], vec![21, 22]).unwrap();
    let order = st.teardown_order();
    assert_eq!(order.len(), 5);
    assert_eq!(order[0], SwapchainResource::Framebuffer(21));
    assert_eq!(order[2], SwapchainResource::ImageView(11));
    assert_eq!(order[4], SwapchainResource::Swapchain(7));
}
