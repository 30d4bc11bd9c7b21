use vkinit::device::{build_queue_requests, device_extension_list, plan_logical_device};
use vkinit::diagnostics::{classify_severity, LogLevel};
use vkinit::errors::{InitError, SuitabilityError, SuitabilityReason};
use vkinit::extensions::{
    check_validation_layer_support, contains_name, negotiate_instance_config,
    required_device_extensions, supports_all, validation_layer, validation_layer_available,
};
use vkinit::lifecycle::{teardown_plan, DestroyStep};
use vkinit::queue_family::{QueueFamilyIndices, QueueFamilyInfo};
use vkinit::suitability::{check_physical_device, select_physical_device, DeviceCandidate};
use vkinit::swapchain::{
    get_swapchain_present_mode, get_swapchain_surface_format, SurfaceCapabilities, SurfaceFormat,
    SwapchainSupport, COLOR_SPACE_SRGB_NONLINEAR, FORMAT_B8G8R8A8_SRGB, PRESENT_MODE_FIFO,
    PRESENT_MODE_MAILBOX,
};
use vkinit::version::{portability_required, portability_threshold, Version};

fn family(graphics: bool, presentation: bool) -> QueueFamilyInfo {
    QueueFamilyInfo { supports_graphics: graphics, supports_presentation: presentation }
}

fn capabilities() -> SurfaceCapabilities {
    SurfaceCapabilities {
        min_image_count: 2,
        max_image_count: 8,
        current_extent: vkinit::swapchain::Extent2d { width: 1024, height: 768 },
        min_image_extent: vkinit::swapchain::Extent2d { width: 1, height: 1 },
        max_image_extent: vkinit::swapchain::Extent2d { width: 4096, height: 4096 },
    }
}

fn support(n_formats: usize, n_modes: usize) -> SwapchainSupport {
    let mut formats = Vec::new();
    for _ in 0..n_formats {
        formats.push(SurfaceFormat { format: FORMAT_B8G8R8A8_SRGB, color_space: COLOR_SPACE_SRGB_NONLINEAR });
    }
    let mut present_modes = Vec::new();
    for _ in 0..n_modes {
        present_modes.push(PRESENT_MODE_FIFO);
    }
    SwapchainSupport { capabilities: capabilities(), formats, present_modes }
}

fn good_candidate() -> DeviceCandidate {
    DeviceCandidate {
        queue_families: vec![family(true, true)],
        extensions: vec!["VK_KHR_swapchain".to_string(), "VK_KHR_maintenance1".to_string()],
        swapchain: support(1, 1),
    }
}

#[test]
fn resolver_picks_first_matches_independently() {
    // Graphics appears first at index 1, presentation first at index 0:
    // the two scans are independent and may pick different indices.
    let families = vec![family(false, true), family(true, false), family(true, true)];
    let ix = QueueFamilyIndices::get(&families).unwrap();
    assert_eq!(ix.graphics, 1);
    assert_eq!(ix.presentation, 0);
}

#[test]
fn resolver_first_match_wins_no_tie_breaking() {
    let families = vec![family(true, true), family(true, true)];
    let ix = QueueFamilyIndices::get(&families).unwrap();
    assert_eq!(ix.graphics, 0);
    assert_eq!(ix.presentation, 0);
}

#[test]
fn resolver_fails_when_graphics_missing() {
    let families = vec![family(false, true), family(false, true)];
    let err = QueueFamilyIndices::get(&families).unwrap_err();
    assert_eq!(err.0, SuitabilityReason::MissingQueueFamilies);
}

#[test]
fn resolver_fails_when_presentation_missing() {
    let families = vec![family(true, false)];
    let err = QueueFamilyIndices::get(&families).unwrap_err();
    assert_eq!(err.0, SuitabilityReason::MissingQueueFamilies);
}

#[test]
fn resolver_fails_on_empty_family_list() {
    let families: Vec<QueueFamilyInfo> = Vec::new();
    let err = QueueFamilyIndices::get(&families).unwrap_err();
    assert_eq!(err.0, SuitabilityReason::MissingQueueFamilies);
}

#[test]
fn shared_queue_family_gets_single_request() {
    let reqs = build_queue_requests(&QueueFamilyIndices { graphics: 2, presentation: 2 });
    assert_eq!(reqs.len(), 1);
    assert_eq!(reqs[0].family_index, 2);
    assert_eq!(reqs[0].queue_count, 1);
}

#[test]
fn distinct_queue_families_get_two_requests() {
    let reqs = build_queue_requests(&QueueFamilyIndices { graphics: 0, presentation: 3 });
    assert_eq!(reqs.len(), 2);
    assert_eq!(reqs[0].family_index, 0);
    assert_eq!(reqs[1].family_index, 3);
    assert!(reqs.iter().all(|r| r.queue_count == 1));
}

#[test]
fn extension_superset_passes() {
    let required = required_device_extensions();
    let candidate = good_candidate();
    // The candidate lists a strict superset of the required set.
    assert!(supports_all(&candidate.extensions, &required));
    assert!(check_physical_device(&candidate, &required).is_ok());
}

#[test]
fn missing_extension_gives_extension_reason() {
    let required = required_device_extensions();
    let mut candidate = good_candidate();
    candidate.extensions = vec!["VK_KHR_maintenance1".to_string()];
    let err = check_physical_device(&candidate, &required).unwrap_err();
    assert_eq!(err.0, SuitabilityReason::MissingDeviceExtensions);
}

#[test]
fn empty_format_list_gives_swapchain_reason() {
    let required = required_device_extensions();
    let mut candidate = good_candidate();
    candidate.swapchain = support(0, 1);
    let err = check_physical_device(&candidate, &required).unwrap_err();
    assert_eq!(err.0, SuitabilityReason::InsufficientSwapchainSupport);
}

#[test]
fn empty_present_mode_list_gives_swapchain_reason() {
    let required = required_device_extensions();
    let mut candidate = good_candidate();
    candidate.swapchain = support(1, 0);
    let err = check_physical_device(&candidate, &required).unwrap_err();
    assert_eq!(err.0, SuitabilityReason::InsufficientSwapchainSupport);
}

#[test]
fn queue_family_failure_reported_before_extension_failure() {
    let required = required_device_extensions();
    let mut candidate = good_candidate();
    candidate.queue_families = vec![family(false, false)];
    candidate.extensions = Vec::new();
    let err = check_physical_device(&candidate, &required).unwrap_err();
    assert_eq!(err.0, SuitabilityReason::MissingQueueFamilies);
}

#[test]
fn selection_fails_on_zero_devices() {
    let required = required_device_extensions();
    let candidates: Vec<DeviceCandidate> = Vec::new();
    let err = select_physical_device(&candidates, &required).unwrap_err();
    assert_eq!(err, InitError::NoSuitableDevice);
}

#[test]
fn selection_fails_when_every_device_rejected() {
    let required = required_device_extensions();
    let mut bad = good_candidate();
    bad.swapchain = support(0, 0);
    let candidates = vec![bad.clone(), bad];
    let err = select_physical_device(&candidates, &required).unwrap_err();
    assert_eq!(err, InitError::NoSuitableDevice);
}

#[test]
fn selection_returns_first_passing_device_with_skip_reasons() {
    let required = required_device_extensions();
    let mut no_queues = good_candidate();
    no_queues.queue_families = vec![family(false, true)];
    let mut no_extensions = good_candidate();
    no_extensions.extensions = Vec::new();
    let candidates = vec![no_queues, no_extensions, good_candidate(), good_candidate()];
    let selection = select_physical_device(&candidates, &required).unwrap();
    // Only devices before the chosen one were evaluated and skipped,
    // each with its own reason, in enumeration order.
    assert_eq!(selection.index, 2);
    assert_eq!(selection.skipped.len(), 2);
    assert_eq!(selection.skipped[0].0, SuitabilityReason::MissingQueueFamilies);
    assert_eq!(selection.skipped[1].0, SuitabilityReason::MissingDeviceExtensions);
}

#[test]
fn teardown_with_diagnostics_destroys_in_reverse_order() {
    let plan = teardown_plan(true);
    assert_eq!(
        plan,
        vec![DestroyStep::Device, DestroyStep::Surface, DestroyStep::Messenger, DestroyStep::Instance]
    );
}

#[test]
fn teardown_without_diagnostics_skips_messenger() {
    let plan = teardown_plan(false);
    assert_eq!(plan, vec![DestroyStep::Device, DestroyStep::Surface, DestroyStep::Instance]);
    assert!(!plan.contains(&DestroyStep::Messenger));
}

#[test]
fn portability_adds_flag_and_instance_extensions() {
    let window = vec!["VK_KHR_surface".to_string(), "VK_KHR_xlib_surface".to_string()];
    let base = negotiate_instance_config(&window, true, false);
    let portable = negotiate_instance_config(&window, true, true);
    assert!(!base.portability_flag);
    assert!(portable.portability_flag);
    assert_eq!(base.extensions.len() + 2, portable.extensions.len());
    assert_eq!(portable.extensions[portable.extensions.len() - 2], "VK_KHR_get_physical_device_properties2");
    assert_eq!(portable.extensions[portable.extensions.len() - 1], "VK_KHR_portability_enumeration");
    assert_eq!(&portable.extensions[..base.extensions.len()], &base.extensions[..]);
}

#[test]
fn portability_adds_exactly_one_device_extension() {
    let required = required_device_extensions();
    let base = device_extension_list(&required, false);
    let portable = device_extension_list(&required, true);
    assert_eq!(base.len() + 1, portable.len());
    assert_eq!(portable[portable.len() - 1], "VK_KHR_portability_subset");
    assert_eq!(&portable[..base.len()], &base[..]);
}

#[test]
fn negotiation_keeps_window_extensions_in_order() {
    let window = vec!["VK_KHR_surface".to_string(), "VK_KHR_wayland_surface".to_string()];
    let config = negotiate_instance_config(&window, false, false);
    assert_eq!(config.extensions, window);
    assert!(config.layers.is_empty());
    assert!(!config.portability_flag);
}

#[test]
fn diagnostics_enable_debug_extension_and_validation_layer() {
    let window = vec!["VK_KHR_surface".to_string()];
    let config = negotiate_instance_config(&window, true, false);
    assert_eq!(config.extensions, vec!["VK_KHR_surface".to_string(), "VK_EXT_debug_utils".to_string()]);
    assert_eq!(config.layers, vec!["VK_LAYER_KHRONOS_validation".to_string()]);
}

#[test]
fn validation_layer_lookup() {
    let available = vec!["VK_LAYER_MESA_overlay".to_string(), "VK_LAYER_KHRONOS_validation".to_string()];
    assert!(validation_layer_available(&available));
    let without = vec!["VK_LAYER_MESA_overlay".to_string()];
    assert!(!validation_layer_available(&without));
    assert_eq!(validation_layer(), "VK_LAYER_KHRONOS_validation");
}

#[test]
fn validation_layer_gate_checked_only_with_diagnostics() {
    let available = vec!["VK_LAYER_KHRONOS_validation".to_string()];
    let without: Vec<String> = Vec::new();
    assert!(check_validation_layer_support(true, &available).is_ok());
    assert_eq!(
        check_validation_layer_support(true, &without).unwrap_err(),
        InitError::MissingValidationLayer
    );
    assert!(check_validation_layer_support(false, &without).is_ok());
}

#[test]
fn name_lookup_edge_cases() {
    let empty: Vec<String> = Vec::new();
    let one = vec!["VK_KHR_swapchain".to_string()];
    assert!(supports_all(&empty, &empty));
    assert!(supports_all(&one, &empty));
    assert!(!supports_all(&empty, &one));
    assert!(!contains_name(&empty, &"VK_KHR_swapchain".to_string()));
    assert!(contains_name(&one, &"VK_KHR_swapchain".to_string()));
}

#[test]
fn severity_bands_map_to_log_levels() {
    assert_eq!(classify_severity(0x1000), LogLevel::Error);
    assert_eq!(classify_severity(0x2000), LogLevel::Error);
    assert_eq!(classify_severity(0xFFF), LogLevel::Warn);
    assert_eq!(classify_severity(0x100), LogLevel::Warn);
    assert_eq!(classify_severity(0xFF), LogLevel::Info);
    assert_eq!(classify_severity(0x10), LogLevel::Info);
    assert_eq!(classify_severity(0xF), LogLevel::Trace);
    assert_eq!(classify_severity(0x1), LogLevel::Trace);
    assert_eq!(classify_severity(0), LogLevel::Trace);
}

#[test]
fn version_threshold_comparison() {
    let threshold = portability_threshold();
    assert_eq!(threshold, Version { major: 1, minor: 3, patch: 216 });
    assert!(threshold.at_least(&threshold));
    assert!(Version { major: 1, minor: 3, patch: 217 }.at_least(&threshold));
    assert!(Version { major: 2, minor: 0, patch: 0 }.at_least(&threshold));
    assert!(!Version { major: 1, minor: 3, patch: 215 }.at_least(&threshold));
    assert!(!Version { major: 1, minor: 2, patch: 999 }.at_least(&threshold));
    assert!(portability_required(true, &Version { major: 1, minor: 3, patch: 216 }));
    assert!(!portability_required(true, &Version { major: 1, minor: 3, patch: 215 }));
    assert!(!portability_required(false, &Version { major: 9, minor: 9, patch: 9 }));
}

#[test]
fn surface_format_picks_first_preferred_occurrence() {
    let other = SurfaceFormat { format: 44, color_space: 0 };
    let preferred = SurfaceFormat { format: FORMAT_B8G8R8A8_SRGB, color_space: COLOR_SPACE_SRGB_NONLINEAR };
    let formats = vec![other, preferred, preferred];
    assert_eq!(get_swapchain_surface_format(&formats), preferred);
    // Same pixel format in the wrong color space does not count.
    let wrong_space = SurfaceFormat { format: FORMAT_B8G8R8A8_SRGB, color_space: 1 };
    let fallback = vec![wrong_space, other];
    assert_eq!(get_swapchain_surface_format(&fallback), wrong_space);
}

#[test]
fn present_mode_prefers_mailbox_falls_back_to_fifo() {
    assert_eq!(get_swapchain_present_mode(&vec![PRESENT_MODE_FIFO, PRESENT_MODE_MAILBOX]), PRESENT_MODE_MAILBOX);
    assert_eq!(get_swapchain_present_mode(&vec![PRESENT_MODE_FIFO]), PRESENT_MODE_FIFO);
    assert_eq!(get_swapchain_present_mode(&Vec::new()), PRESENT_MODE_FIFO);
}

#[test]
fn error_messages() {
    assert_eq!(
        SuitabilityError(SuitabilityReason::MissingQueueFamilies).message(),
        "Missing required queue families"
    );
    assert_eq!(
        SuitabilityError(SuitabilityReason::MissingDeviceExtensions).message(),
        "Missing required device extensions"
    );
    assert_eq!(
        SuitabilityError(SuitabilityReason::InsufficientSwapchainSupport).message(),
        "Insufficient swapchain support"
    );
    assert_eq!(InitError::MissingValidationLayer.message(), "Validation layer requested but not supported");
    assert_eq!(InitError::NoSuitableDevice.message(), "No suitable physical device found");
}

#[test]
fn plan_logical_device_composes_decisions() {
    let required = required_device_extensions();
    let indices = QueueFamilyIndices { graphics: 1, presentation: 1 };
    let plan = plan_logical_device(&indices, &required, true, true);
    assert_eq!(plan.queue_requests.len(), 1);
    assert_eq!(plan.queue_requests[0].family_index, 1);
    assert_eq!(plan.extensions, vec!["VK_KHR_swapchain".to_string(), "VK_KHR_portability_subset".to_string()]);
    assert_eq!(plan.layers, vec!["VK_LAYER_KHRONOS_validation".to_string()]);
    let bare = plan_logical_device(&QueueFamilyIndices { graphics: 0, presentation: 2 }, &required, false, false);
    assert_eq!(bare.queue_requests.len(), 2);
    assert_eq!(bare.extensions, vec!["VK_KHR_swapchain".to_string()]);
    assert!(bare.layers.is_empty());
}
