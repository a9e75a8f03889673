//! Chain planning, configuration and device selection.

use frameflow::config::{
    Config, ControlsConfig, DebugConfig, GraphicsConfig, WindowConfig, parse_present_mode,
};
use frameflow::device::{
    DeviceInfo, DeviceKind, DiagnosticSeverity, LogLevel, check_device_features, find_memory_type,
    pick_physical_device, severity_log_level,
};
use frameflow::swapchain::{
    ChainError, Extent2D, PresentMode, SurfaceCaps, SurfaceFormat, COLOR_SPACE_SRGB_NONLINEAR,
    EXTENT_UNDEFINED, FORMAT_B8G8R8A8_SRGB, choose_extent, choose_image_count,
    choose_present_mode, choose_surface_format, plan_swapchain,
};

fn caps(min_count: u32, max_count: u32, current: Option<(u32, u32)>) -> SurfaceCaps {
    let current_extent = match current {
        Some((w, h)) => Extent2D { width: w, height: h },
        None => Extent2D { width: EXTENT_UNDEFINED, height: EXTENT_UNDEFINED },
    };
    SurfaceCaps {
        min_image_count: min_count,
        max_image_count: max_count,
        current_extent,
        min_image_extent: Extent2D { width: 1, height: 1 },
        max_image_extent: Extent2D { width: 4096, height: 4096 },
    }
}

#[test]
fn default_window_config() {
    let w = WindowConfig::default();
    assert_eq!(w.title, "Vulkan Renderer");
    assert_eq!(w.width, 1280);
    assert_eq!(w.height, 720);
    assert!(!w.fullscreen);
}

#[test]
fn default_graphics_config() {
    let g = GraphicsConfig::default();
    assert_eq!(g.present_mode, "immediate");
    assert_eq!(
        g.clear_color_bits,
        [0.1f32.to_bits(), 0.2f32.to_bits(), 0.8f32.to_bits(), 1.0f32.to_bits()]
    );
    assert_eq!(g.max_frames_in_flight, 2);
}

#[test]
fn default_debug_and_controls_config() {
    let d = DebugConfig::default();
    assert!(d.validation_layers);
    assert!(d.log_to_file);
    assert_eq!(d.log_file, "vulkan_debug.log");
    assert!(d.show_fps);
    let c = ControlsConfig::default();
    assert_eq!(c.fullscreen_key, "F11");
    assert_eq!(c.screenshot_key, "F12");
    assert_eq!(c.quit_key, "Escape");
}

#[test]
fn present_mode_names_parse_case_insensitively() {
    assert_eq!(parse_present_mode("immediate"), (PresentMode::Immediate, true));
    assert_eq!(parse_present_mode("IMMEDIATE"), (PresentMode::Immediate, true));
    assert_eq!(parse_present_mode("MailBox"), (PresentMode::Mailbox, true));
    assert_eq!(parse_present_mode("fifo"), (PresentMode::Fifo, true));
    assert_eq!(parse_present_mode("FIFO"), (PresentMode::Fifo, true));
    assert_eq!(parse_present_mode("Fifo_Relaxed"), (PresentMode::FifoRelaxed, true));
}

#[test]
fn unknown_present_mode_falls_back_to_immediate() {
    let (mode, recognized) = parse_present_mode("fasttrack");
    assert_eq!(mode, PresentMode::Immediate);
    assert!(!recognized);
    let (mode, recognized) = parse_present_mode("");
    assert_eq!(mode, PresentMode::Immediate);
    assert!(!recognized);
}

#[test]
fn get_present_mode_reads_the_graphics_section() {
    let mut config = Config::default();
    assert_eq!(config.get_present_mode(), PresentMode::Immediate);
    config.graphics.present_mode = "mailbox".to_string();
    assert_eq!(config.get_present_mode(), PresentMode::Mailbox);
}

#[test]
fn surface_format_prefers_srgb() {
    let other = SurfaceFormat { format: 44, color_space: 0 };
    let preferred = SurfaceFormat {
        format: FORMAT_B8G8R8A8_SRGB,
        color_space: COLOR_SPACE_SRGB_NONLINEAR,
    };
    assert_eq!(choose_surface_format(&vec![other, preferred]), Some(preferred));
    assert_eq!(choose_surface_format(&vec![other]), Some(other));
    assert_eq!(choose_surface_format(&vec![]), None);
}

#[test]
fn present_mode_prefers_immediate_then_mailbox_then_fifo() {
    let (imm, mbox, fifo) = (PresentMode::Immediate, PresentMode::Mailbox, PresentMode::Fifo);
    assert_eq!(choose_present_mode(&vec![fifo, mbox, imm]), imm);
    assert_eq!(choose_present_mode(&vec![fifo, mbox]), mbox);
    assert_eq!(choose_present_mode(&vec![fifo]), fifo);
    assert_eq!(choose_present_mode(&vec![]), fifo);
}

#[test]
fn extent_takes_the_surface_fixed_extent_when_reported() {
    let c = caps(2, 3, Some((800, 600)));
    let e = choose_extent(&c, 1280, 720);
    assert_eq!((e.width, e.height), (800, 600));
}

#[test]
fn extent_clamps_the_request_into_surface_bounds() {
    let c = caps(2, 3, None);
    let e = choose_extent(&c, 5000, 0);
    assert_eq!((e.width, e.height), (4096, 1));
    let e = choose_extent(&c, 1280, 720);
    assert_eq!((e.width, e.height), (1280, 720));
}

#[test]
fn image_count_is_min_plus_one_clamped_to_max() {
    assert_eq!(choose_image_count(&caps(2, 3, None)), 3);
    assert_eq!(choose_image_count(&caps(2, 0, None)), 3);
    assert_eq!(choose_image_count(&caps(3, 3, None)), 3);
    assert_eq!(choose_image_count(&caps(1, 0, None)), 2);
}

#[test]
fn plan_swapchain_combines_the_choices() {
    let preferred = SurfaceFormat {
        format: FORMAT_B8G8R8A8_SRGB,
        color_space: COLOR_SPACE_SRGB_NONLINEAR,
    };
    let plan = plan_swapchain(
        &caps(2, 3, None),
        &vec![preferred],
        &vec![PresentMode::Fifo, PresentMode::Immediate],
        1280,
        720,
    )
    .unwrap();
    assert_eq!(plan.format, preferred);
    assert_eq!(plan.present_mode, PresentMode::Immediate);
    assert_eq!((plan.extent.width, plan.extent.height), (1280, 720));
    assert_eq!(plan.image_count, 3);
}

#[test]
fn plan_swapchain_without_formats_is_an_error() {
    let r = plan_swapchain(&caps(2, 3, None), &vec![], &vec![PresentMode::Fifo], 1280, 720);
    assert_eq!(r, Err(ChainError::NoSurfaceFormat));
    assert_eq!(ChainError::NoSurfaceFormat.message(), "no suitable surface format");
}

fn device(kind: DeviceKind, features: bool, graphics: Vec<bool>) -> DeviceInfo {
    DeviceInfo {
        kind,
        fill_mode_non_solid: features,
        sampler_anisotropy: features,
        queue_family_graphics: graphics,
    }
}

#[test]
fn device_selection_prefers_discrete_gpus() {
    let devices = vec![
        device(DeviceKind::Integrated, true, vec![true]),
        device(DeviceKind::Discrete, true, vec![false, true]),
        device(DeviceKind::Discrete, true, vec![true]),
    ];
    // The first device reaching the best score wins; its first graphics
    // family is reported.
    assert_eq!(pick_physical_device(&devices), Some((1, 1)));
}

#[test]
fn device_selection_skips_ineligible_devices() {
    let devices = vec![
        device(DeviceKind::Discrete, false, vec![true]),
        device(DeviceKind::Discrete, true, vec![false]),
        device(DeviceKind::Other, true, vec![true]),
    ];
    assert_eq!(pick_physical_device(&devices), Some((2, 0)));
    assert_eq!(pick_physical_device(&vec![]), None);
    assert_eq!(pick_physical_device(&vec![device(DeviceKind::Discrete, false, vec![true])]), None);
}

#[test]
fn feature_check_requires_both_features() {
    assert!(check_device_features(&device(DeviceKind::Other, true, vec![])));
    let mut d = device(DeviceKind::Other, true, vec![]);
    d.sampler_anisotropy = false;
    assert!(!check_device_features(&d));
}

#[test]
fn memory_type_lookup_honours_filter_and_properties() {
    let types = vec![0b0001u32, 0b0110, 0b0110];
    // Bit 0 of the filter excludes index 0; index 1 lacks nothing.
    assert_eq!(find_memory_type(&types, 0b110, 0b0110), Some(1));
    assert_eq!(find_memory_type(&types, 0b100, 0b0110), Some(2));
    assert_eq!(find_memory_type(&types, 0b001, 0b0110), None);
    assert_eq!(find_memory_type(&types, 0b000, 0), None);
}

#[test]
fn diagnostic_severities_map_to_log_levels() {
    assert_eq!(severity_log_level(DiagnosticSeverity::Error), LogLevel::Error);
    assert_eq!(severity_log_level(DiagnosticSeverity::Warning), LogLevel::Warn);
    assert_eq!(severity_log_level(DiagnosticSeverity::Info), LogLevel::Debug);
    assert_eq!(severity_log_level(DiagnosticSeverity::Verbose), LogLevel::Debug);
}
