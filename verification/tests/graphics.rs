use lwar::error::FatalError;
use lwar::graphics::{
    check_feature_level, classify_swap_chain_result, feature_level_sufficient, ClearRecord,
    GraphicsDevice, InputElement, PresentOutcome, PrimitiveType, Texture2D,
    ERROR_DEVICE_REMOVED, ERROR_DEVICE_RESET, MIN_FEATURE_LEVEL,
};
use lwar::primitives::{Color, Rectangle};

fn presenting_device() -> GraphicsDevice {
    let mut device = GraphicsDevice::new(800, 600);
    device.attach_surface(42);
    device.resize(800, 600);
    device
}

#[test]
fn default_device_starts_at_the_placeholder_size() {
    let device = GraphicsDevice::default();
    assert_eq!(device, GraphicsDevice::new(800, 600));
    assert_eq!((device.width, device.height), (800, 600));
}

#[test]
fn new_device_has_no_surface_and_no_back_buffer() {
    let device = GraphicsDevice::new(800, 600);
    assert_eq!(device.swap_chain, None);
    assert_eq!(device.back_buffer, None);
    assert_eq!((device.width, device.height), (800, 600));
}

#[test]
fn attach_surface_creates_the_swap_chain_and_defers_the_back_buffer() {
    let mut device = GraphicsDevice::new(800, 600);
    device.attach_surface(42);
    assert!(device.swap_chain.is_some());
    assert_eq!(device.back_buffer, None);
    assert_eq!(device.hwnd, 42);
}

#[test]
fn resize_builds_a_fresh_back_buffer_each_time() {
    let mut device = presenting_device();
    let first = device.back_buffer.unwrap();
    device.resize(1024, 768);
    let second = device.back_buffer.unwrap();
    assert_ne!(first, second);
    assert_eq!((device.width, device.height), (1024, 768));
}

#[test]
fn present_success_changes_nothing() {
    let mut device = presenting_device();
    let before = device;
    assert_eq!(device.present(PresentOutcome::Presented), Ok(()));
    assert_eq!(device, before);
}

#[test]
fn device_loss_recovers_with_fresh_resources_and_same_size() {
    let mut device = presenting_device();
    let old_device = device.device;
    let old_swap_chain = device.swap_chain.unwrap();
    let old_back_buffer = device.back_buffer.unwrap();

    assert_eq!(device.present(PresentOutcome::DeviceLost), Ok(()));

    assert_ne!(device.device, old_device);
    assert_ne!(device.swap_chain.unwrap(), old_swap_chain);
    assert_ne!(device.back_buffer.unwrap(), old_back_buffer);
    assert_eq!((device.width, device.height), (800, 600));
    assert_eq!(device.hwnd, 42);

    assert_eq!(device.present(PresentOutcome::Presented), Ok(()));
}

#[test]
fn device_reset_recovers_like_device_loss() {
    let mut device = presenting_device();
    let old_back_buffer = device.back_buffer.unwrap();
    assert_eq!(device.present(PresentOutcome::DeviceReset), Ok(()));
    assert_ne!(device.back_buffer.unwrap(), old_back_buffer);
}

#[test]
fn other_present_failures_are_fatal_with_their_code() {
    let mut device = presenting_device();
    assert_eq!(
        device.present(PresentOutcome::Failed(0x80004005)),
        Err(FatalError::SwapChainFailed(0x80004005))
    );
}

#[test]
fn resize_to_the_same_size_then_clear_and_present_succeeds() {
    let mut device = presenting_device();
    device.resize(800, 600);
    let target = device.back_buffer();
    device.clear(&target, Color::new(0, 0, 0, 255));
    assert_eq!(device.present(PresentOutcome::Presented), Ok(()));
    assert_eq!(
        device.last_clear,
        Some(ClearRecord { target: target.id, color: Color::new(0, 0, 0, 255) })
    );
}

#[test]
fn classification_of_swap_chain_result_codes() {
    assert_eq!(classify_swap_chain_result(0), PresentOutcome::Presented);
    assert_eq!(classify_swap_chain_result(1), PresentOutcome::Presented);
    assert_eq!(
        classify_swap_chain_result(ERROR_DEVICE_REMOVED),
        PresentOutcome::DeviceLost
    );
    assert_eq!(classify_swap_chain_result(ERROR_DEVICE_RESET), PresentOutcome::DeviceReset);
    assert_eq!(
        classify_swap_chain_result(0x80004005),
        PresentOutcome::Failed(0x80004005)
    );
}

#[test]
fn feature_level_gate() {
    assert!(feature_level_sufficient(MIN_FEATURE_LEVEL));
    assert!(feature_level_sufficient(0xC000));
    assert!(!feature_level_sufficient(0xA000));
    assert_eq!(check_feature_level(0xB000), Ok(()));
    assert_eq!(check_feature_level(0xA100), Err(FatalError::IncompatibleFeatureLevel));
}

#[test]
fn back_buffer_view_carries_the_device_size() {
    let device = presenting_device();
    let target = device.back_buffer();
    assert_eq!(target.id, device.back_buffer.unwrap());
    assert_eq!((target.width, target.height), (800, 600));
}

#[test]
fn render_targets_and_shaders_get_distinct_fresh_tags() {
    let mut device = presenting_device();
    let texture = Texture2D { id: 1, width: 64, height: 64 };
    let target = device.create_render_target(&texture);
    assert_eq!((target.width, target.height), (64, 64));

    let vertex_shader = device.create_vertex_shader(
        &vec![0u8, 1, 2, 3],
        &vec![InputElement { semantic: 0, format: 2, slot: 0 }],
    );
    let pixel_shader = device.create_pixel_shader(&vec![4u8, 5, 6]);
    assert_ne!(vertex_shader.id, vertex_shader.input_layout);
    assert_ne!(vertex_shader.id, pixel_shader.id);
    assert_ne!(vertex_shader.input_layout, pixel_shader.id);
    assert_ne!(target.id, vertex_shader.id);

    device.set_vertex_shader(&vertex_shader);
    device.set_pixel_shader(&pixel_shader);
    device.set_primitive_type(PrimitiveType::Triangles);
    assert_eq!(device.bound_vertex_shader, Some(vertex_shader.id));
    assert_eq!(device.bound_pixel_shader, Some(pixel_shader.id));
    assert_eq!(device.primitive, Some(PrimitiveType::Triangles));
}

#[test]
fn device_loss_resets_context_bound_state() {
    let mut device = presenting_device();
    let pixel_shader = device.create_pixel_shader(&vec![1u8]);
    device.set_pixel_shader(&pixel_shader);
    device.set_viewport(&Rectangle { left: 0u32, top: 0, width: 800, height: 600 });
    assert_eq!(device.present(PresentOutcome::DeviceLost), Ok(()));
    assert_eq!(device.bound_pixel_shader, None);
    assert_eq!(device.viewport, None);
}

#[test]
fn viewport_and_scissor_are_recorded() {
    let mut device = presenting_device();
    let rect = Rectangle { left: 10u32, top: 20, width: 300, height: 200 };
    device.set_viewport(&rect);
    device.set_scissor_rect(&rect);
    assert_eq!(device.viewport, Some(rect));
    assert_eq!(device.scissor, Some(rect));
    assert_eq!(GraphicsDevice::scissor_edges(&rect), (310, 220));
}

#[test]
fn topology_codes_match_the_platform() {
    assert_eq!(PrimitiveType::Points.topology_code(), 1);
    assert_eq!(PrimitiveType::Triangles.topology_code(), 4);
}
