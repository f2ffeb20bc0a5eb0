use frameloop::device::{select_physical_device, DeviceCandidate, DeviceKind, QueueFamily};
use frameloop::error::RenderError;

fn dual_family() -> Vec<QueueFamily> {
    vec![QueueFamily { graphics: true, present: true }]
}

fn candidate(kind: DeviceKind) -> DeviceCandidate {
    DeviceCandidate { kind, supports_swapchain: true, queue_families: dual_family() }
}

#[test]
fn discrete_gpu_wins_over_integrated() {
    let candidates = vec![
        candidate(DeviceKind::IntegratedGpu),
        candidate(DeviceKind::Cpu),
        candidate(DeviceKind::DiscreteGpu),
    ];
    assert_eq!(select_physical_device(&candidates).unwrap(), (2, 0));
}

#[test]
fn ties_go_to_the_first_reported_device() {
    let candidates = vec![
        candidate(DeviceKind::IntegratedGpu),
        candidate(DeviceKind::IntegratedGpu),
    ];
    assert_eq!(select_physical_device(&candidates).unwrap(), (0, 0));
}

#[test]
fn the_first_family_that_draws_and_presents_is_chosen() {
    let candidates = vec![DeviceCandidate {
        kind: DeviceKind::DiscreteGpu,
        supports_swapchain: true,
        queue_families: vec![
            QueueFamily { graphics: true, present: false },
            QueueFamily { graphics: false, present: true },
            QueueFamily { graphics: true, present: true },
            QueueFamily { graphics: true, present: true },
        ],
    }];
    assert_eq!(select_physical_device(&candidates).unwrap(), (0, 2));
}

#[test]
fn devices_without_the_swapchain_extension_are_skipped() {
    let candidates = vec![
        DeviceCandidate {
            kind: DeviceKind::DiscreteGpu,
            supports_swapchain: false,
            queue_families: dual_family(),
        },
        candidate(DeviceKind::Cpu),
    ];
    assert_eq!(select_physical_device(&candidates).unwrap(), (1, 0));
}

#[test]
fn selection_fails_when_no_device_is_suitable() {
    let candidates = vec![
        DeviceCandidate {
            kind: DeviceKind::DiscreteGpu,
            supports_swapchain: false,
            queue_families: dual_family(),
        },
        DeviceCandidate {
            kind: DeviceKind::DiscreteGpu,
            supports_swapchain: true,
            queue_families: vec![QueueFamily { graphics: true, present: false }],
        },
    ];
    let err = select_physical_device(&candidates).unwrap_err();
    assert_eq!(err, RenderError::SetupError);
}

#[test]
fn selection_fails_on_an_empty_device_list() {
    let err = select_physical_device(&Vec::new()).unwrap_err();
    assert_eq!(err, RenderError::SetupError);
}

#[test]
fn only_surface_invalidation_is_recoverable() {
    assert!(RenderError::SurfaceInvalidated.is_recoverable());
    assert!(!RenderError::SetupError.is_recoverable());
    assert!(!RenderError::DeviceError.is_recoverable());
    assert!(!RenderError::ResourceExhausted.is_recoverable());
}
