//! Tests of the context-acquisition handshake: configuration assembly and
//! the negotiation state machine.

use gpu_context::caps::{AlphaMode, PresentMode, SurfaceCapabilities, TextureFormat};
use gpu_context::config::{
    build_surface_config, SurfaceConfig, TextureUsage, WindowSize, DESIRED_MAXIMUM_FRAME_LATENCY,
};
use gpu_context::negotiate::{
    ContextError, NegotiationEvent, NegotiationState, PendingRequest,
};

fn fmt(code: u32, srgb: bool) -> TextureFormat {
    TextureFormat { code, srgb }
}

fn caps(formats: Vec<TextureFormat>, present: Vec<u32>, alpha: Vec<u32>) -> SurfaceCapabilities {
    SurfaceCapabilities {
        formats,
        present_modes: present.into_iter().map(|code| PresentMode { code }).collect(),
        alpha_modes: alpha.into_iter().map(|code| AlphaMode { code }).collect(),
    }
}

fn run_to_capabilities(size: WindowSize) -> NegotiationState {
    NegotiationState::begin(size)
        .step(NegotiationEvent::SurfaceCreated)
        .step(NegotiationEvent::AdapterFound)
        .step(NegotiationEvent::DeviceCreated)
}

#[test]
fn full_negotiation_scenario() {
    // Window 800x600; formats RGBA8-unorm (not sRGB) then BGRA8-unorm-srgb;
    // present modes Fifo then Mailbox; alpha mode Opaque.
    let size = WindowSize { width: 800, height: 600 };
    let report = caps(vec![fmt(0, false), fmt(1, true)], vec![0, 1], vec![0]);
    let state = run_to_capabilities(size).step(NegotiationEvent::CapabilitiesQueried(report));
    let config = state.config().expect("negotiation should be complete");
    assert_eq!(
        config,
        SurfaceConfig {
            usage: TextureUsage::RenderAttachment,
            format: fmt(1, true),
            width: 800,
            height: 600,
            present_mode: PresentMode { code: 0 },
            alpha_mode: AlphaMode { code: 0 },
            desired_maximum_frame_latency: 2,
        }
    );
}

#[test]
fn negotiation_falls_back_when_no_srgb_offered() {
    // A capability list with only RGBA8-unorm selects it by fallback.
    let size = WindowSize { width: 640, height: 480 };
    let report = caps(vec![fmt(0, false)], vec![0], vec![0]);
    let state = run_to_capabilities(size).step(NegotiationEvent::CapabilitiesQueried(report));
    let config = state.config().expect("negotiation should be complete");
    assert_eq!(config.format, fmt(0, false));
}

#[test]
fn config_dimensions_equal_recorded_size() {
    let size = WindowSize { width: 1, height: 1 };
    let report = caps(vec![fmt(0, true)], vec![0], vec![0]);
    let config = build_surface_config(size, &report);
    assert_eq!(config.width, 1);
    assert_eq!(config.height, 1);

    let size = WindowSize { width: 1920, height: 1080 };
    let config = build_surface_config(size, &report);
    assert_eq!(config.width, 1920);
    assert_eq!(config.height, 1080);
}

#[test]
fn present_and_alpha_modes_are_first_offered() {
    let size = WindowSize { width: 100, height: 100 };
    let report = caps(vec![fmt(0, false)], vec![5, 3, 1], vec![9, 2]);
    let config = build_surface_config(size, &report);
    assert_eq!(config.present_mode, PresentMode { code: 5 });
    assert_eq!(config.alpha_mode, AlphaMode { code: 9 });
}

#[test]
fn frame_latency_and_usage_are_fixed() {
    let size = WindowSize { width: 320, height: 200 };
    let report = caps(vec![fmt(4, false), fmt(6, true)], vec![2], vec![7]);
    let config = build_surface_config(size, &report);
    assert_eq!(config.desired_maximum_frame_latency, DESIRED_MAXIMUM_FRAME_LATENCY);
    assert_eq!(config.desired_maximum_frame_latency, 2);
    assert_eq!(config.usage, TextureUsage::RenderAttachment);
}

#[test]
fn surface_failure_is_terminal() {
    let size = WindowSize { width: 800, height: 600 };
    let state = NegotiationState::begin(size).step(NegotiationEvent::SurfaceFailed);
    assert_eq!(state.error(), Some(ContextError::SurfaceCreationFailed));
    assert_eq!(state.config(), None);
    assert_eq!(state.pending_request(), None);
    // No later outcome revives a failed negotiation.
    let state = state
        .step(NegotiationEvent::AdapterFound)
        .step(NegotiationEvent::DeviceCreated)
        .step(NegotiationEvent::CapabilitiesQueried(caps(
            vec![fmt(0, true)],
            vec![0],
            vec![0],
        )));
    assert_eq!(state.error(), Some(ContextError::SurfaceCreationFailed));
    assert_eq!(state.config(), None);
}

#[test]
fn adapter_missing_fails_with_adapter_unavailable() {
    let size = WindowSize { width: 800, height: 600 };
    let state = NegotiationState::begin(size)
        .step(NegotiationEvent::SurfaceCreated)
        .step(NegotiationEvent::AdapterMissing);
    assert_eq!(state.error(), Some(ContextError::AdapterUnavailable));
    assert_eq!(state.config(), None);
}

#[test]
fn device_refusal_fails_with_device_creation_failed() {
    let size = WindowSize { width: 800, height: 600 };
    let state = NegotiationState::begin(size)
        .step(NegotiationEvent::SurfaceCreated)
        .step(NegotiationEvent::AdapterFound)
        .step(NegotiationEvent::DeviceFailed);
    assert_eq!(state.error(), Some(ContextError::DeviceCreationFailed));
    assert_eq!(state.config(), None);
}

#[test]
fn no_config_is_observable_before_completion() {
    // The negotiation exposes no configuration (and no error) at any
    // intermediate stage, and each stage waits on the expected request.
    let size = WindowSize { width: 800, height: 600 };
    let state = NegotiationState::begin(size);
    assert_eq!(state.config(), None);
    assert_eq!(state.error(), None);
    assert_eq!(state.pending_request(), Some(PendingRequest::CreateSurface));

    let state = state.step(NegotiationEvent::SurfaceCreated);
    assert_eq!(state.config(), None);
    assert_eq!(state.pending_request(), Some(PendingRequest::RequestAdapter));

    let state = state.step(NegotiationEvent::AdapterFound);
    assert_eq!(state.config(), None);
    assert_eq!(state.pending_request(), Some(PendingRequest::RequestDevice));

    let state = state.step(NegotiationEvent::DeviceCreated);
    assert_eq!(state.config(), None);
    assert_eq!(state.pending_request(), Some(PendingRequest::QueryCapabilities));

    let state = state.step(NegotiationEvent::CapabilitiesQueried(caps(
        vec![fmt(0, true)],
        vec![0],
        vec![0],
    )));
    assert!(state.config().is_some());
    assert_eq!(state.error(), None);
    assert_eq!(state.pending_request(), None);
}

#[test]
fn malformed_capability_report_does_not_complete() {
    // A report with an empty list cannot configure a surface: the
    // negotiation stays where it was, still waiting on the query.
    let size = WindowSize { width: 800, height: 600 };
    let pending = run_to_capabilities(size);
    let state = pending.step(NegotiationEvent::CapabilitiesQueried(caps(
        vec![],
        vec![0],
        vec![0],
    )));
    assert_eq!(state.config(), None);
    assert_eq!(state.error(), None);
    assert_eq!(state.pending_request(), Some(PendingRequest::QueryCapabilities));
}

#[test]
fn event_for_wrong_stage_is_ignored() {
    let size = WindowSize { width: 800, height: 600 };
    let state = NegotiationState::begin(size).step(NegotiationEvent::DeviceCreated);
    assert_eq!(state.pending_request(), Some(PendingRequest::CreateSurface));
    assert_eq!(state.config(), None);
    assert_eq!(state.error(), None);
}
