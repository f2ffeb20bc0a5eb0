use frameloop::error::RenderError;
use frameloop::swapchain::{
    choose_format, clamp_image_count, create_swapchain, recreate_swapchain, Extent2D, SurfaceCaps,
    SurfaceFormat, PREFERRED_COLOR_SPACE, PREFERRED_FORMAT,
};

fn preferred() -> SurfaceFormat {
    SurfaceFormat { format: PREFERRED_FORMAT, color_space: PREFERRED_COLOR_SPACE }
}

fn other_format() -> SurfaceFormat {
    SurfaceFormat { format: 44, color_space: 1 }
}

#[test]
fn image_count_is_pinned_by_an_exact_capability_report() {
    // A surface reporting min 3, max 3 yields exactly 3 images,
    // whatever was requested.
    assert_eq!(clamp_image_count(1, 3, Some(3)), 3);
    assert_eq!(clamp_image_count(2, 3, Some(3)), 3);
    assert_eq!(clamp_image_count(3, 3, Some(3)), 3);
    assert_eq!(clamp_image_count(8, 3, Some(3)), 3);
}

#[test]
fn image_count_is_raised_to_at_least_two() {
    assert_eq!(clamp_image_count(0, 1, None), 2);
    assert_eq!(clamp_image_count(1, 1, Some(4)), 2);
    assert_eq!(clamp_image_count(5, 1, None), 5);
}

#[test]
fn image_count_is_capped_at_the_device_maximum() {
    assert_eq!(clamp_image_count(6, 2, Some(4)), 4);
    assert_eq!(clamp_image_count(6, 2, None), 6);
}

#[test]
fn format_choice_prefers_the_srgb_pair() {
    let formats = vec![other_format(), preferred(), other_format()];
    assert_eq!(choose_format(&formats).unwrap(), preferred());
}

#[test]
fn format_choice_falls_back_to_the_first_reported_pair() {
    let formats = vec![other_format(), SurfaceFormat { format: 37, color_space: 1 }];
    assert_eq!(choose_format(&formats).unwrap(), other_format());
}

#[test]
fn format_choice_fails_on_a_surface_without_formats() {
    let formats: Vec<SurfaceFormat> = Vec::new();
    assert_eq!(choose_format(&formats).unwrap_err(), RenderError::DeviceError);
}

#[test]
fn creation_resolves_the_surface_extent() {
    let caps = SurfaceCaps {
        min_image_count: 2,
        max_image_count: Some(8),
        current_extent: Some(Extent2D { width: 1024, height: 768 }),
        formats: vec![preferred()],
    };
    let bundle = create_swapchain(&caps, 3, Extent2D { width: 1, height: 1 }).unwrap();
    assert_eq!(bundle.swapchain.extent, Extent2D { width: 1024, height: 768 });
    assert_eq!(bundle.swapchain.image_count, 3);
    assert_eq!(bundle.swapchain.generation, 0);
    assert_eq!(bundle.swapchain.format, preferred());
    assert_eq!(bundle.images.len(), 3);
    for (i, img) in bundle.images.iter().enumerate() {
        assert_eq!(img.index as usize, i);
        assert_eq!(img.generation, 0);
        assert_eq!(img.extent, bundle.swapchain.extent);
    }
}

#[test]
fn creation_falls_back_to_the_window_extent() {
    let caps = SurfaceCaps {
        min_image_count: 2,
        max_image_count: None,
        current_extent: None,
        formats: vec![preferred()],
    };
    let bundle = create_swapchain(&caps, 2, Extent2D { width: 800, height: 600 }).unwrap();
    assert_eq!(bundle.swapchain.extent, Extent2D { width: 800, height: 600 });
}

#[test]
fn creation_fails_on_a_surface_without_formats() {
    let caps = SurfaceCaps {
        min_image_count: 2,
        max_image_count: None,
        current_extent: None,
        formats: Vec::new(),
    };
    let err = create_swapchain(&caps, 2, Extent2D { width: 800, height: 600 }).unwrap_err();
    assert_eq!(err, RenderError::DeviceError);
}

#[test]
fn recreation_reuses_everything_but_the_extent() {
    let caps = SurfaceCaps {
        min_image_count: 2,
        max_image_count: Some(8),
        current_extent: Some(Extent2D { width: 640, height: 480 }),
        formats: vec![other_format()],
    };
    let first = create_swapchain(&caps, 4, Extent2D { width: 1, height: 1 }).unwrap();

    let resized = SurfaceCaps {
        current_extent: Some(Extent2D { width: 1920, height: 1080 }),
        ..caps.clone()
    };
    let second =
        recreate_swapchain(&resized, &first.swapchain, Extent2D { width: 2, height: 2 }).unwrap();
    assert_eq!(second.swapchain.format, first.swapchain.format);
    assert_eq!(second.swapchain.image_count, first.swapchain.image_count);
    assert_eq!(second.swapchain.generation, first.swapchain.generation + 1);
    assert_eq!(second.swapchain.extent, Extent2D { width: 1920, height: 1080 });
    assert_eq!(second.images.len(), second.swapchain.image_count as usize);
    for img in &second.images {
        assert_eq!(img.generation, 1);
    }
}

#[test]
fn recreation_falls_back_to_the_caller_supplied_extent() {
    let caps = SurfaceCaps {
        min_image_count: 2,
        max_image_count: None,
        current_extent: Some(Extent2D { width: 640, height: 480 }),
        formats: vec![preferred()],
    };
    let first = create_swapchain(&caps, 2, Extent2D { width: 1, height: 1 }).unwrap();
    let silent = SurfaceCaps { current_extent: None, ..caps };
    let second =
        recreate_swapchain(&silent, &first.swapchain, Extent2D { width: 333, height: 222 })
            .unwrap();
    assert_eq!(second.swapchain.extent, Extent2D { width: 333, height: 222 });
}

#[test]
fn zero_area_extents_are_degenerate() {
    assert!(Extent2D { width: 0, height: 100 }.is_zero());
    assert!(Extent2D { width: 100, height: 0 }.is_zero());
    assert!(!Extent2D { width: 1, height: 1 }.is_zero());
}
