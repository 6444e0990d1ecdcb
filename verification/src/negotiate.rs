//! The context-acquisition handshake as a state machine: which stage the
//! negotiation is waiting on, how each stage's outcome advances it, and how
//! each stage's failure ends it.
//!
//! The host performs the outside work (backend instance, surface creation,
//! the asynchronous adapter and device requests, the capability query) and
//! reports each outcome as a [`NegotiationEvent`]; every decision is made
//! here.  The negotiation is strictly linear: no stage begins before the
//! previous one succeeded, a failure is terminal, and a configuration is
//! observable only in the [`NegotiationState::Complete`] state, which is
//! reachable only after every stage succeeded.

use vstd::prelude::*;
use crate::caps::SurfaceCapabilities;
use crate::config::{
    DESIRED_MAXIMUM_FRAME_LATENCY, SurfaceConfig, TextureUsage, WindowSize, build_surface_config,
    spec_build_config,
};

verus! {

/// Why context acquisition failed: each variant names the stage whose
/// failure ended the negotiation.  Every failure is terminal — there is no
/// retry and no partial context.
#[derive(Clone, Copy, Debug, PartialEq, Eq, Structural)]
pub enum ContextError {
    /// The platform could not produce a drawable surface for the window.
    SurfaceCreationFailed,
    /// No adapter compatible with the surface was offered.
    AdapterUnavailable,
    /// The adapter refused the requested device and queue.
    DeviceCreationFailed,
}

/// The outside work the negotiation is waiting on next.
#[derive(Clone, Copy, Debug, PartialEq, Eq, Structural)]
pub enum PendingRequest {
    /// Create a surface bound to the window.
    CreateSurface,
    /// Request an adapter compatible with the surface.
    RequestAdapter,
    /// Request a logical device and queue from the adapter.
    RequestDevice,
    /// Query the surface's capabilities from the adapter.
    QueryCapabilities,
}

/// The outcome of one piece of outside work, reported back to the
/// negotiation by the host.
#[derive(Clone, Debug)]
pub enum NegotiationEvent {
    /// A surface bound to the window was created.
    SurfaceCreated,
    /// The platform could not produce a surface for the window.
    SurfaceFailed,
    /// A compatible adapter was offered.
    AdapterFound,
    /// No compatible adapter was offered.
    AdapterMissing,
    /// The adapter granted a device and queue.
    DeviceCreated,
    /// The adapter refused the device request.
    DeviceFailed,
    /// The adapter reported the surface's capabilities.
    CapabilitiesQueried(SurfaceCapabilities),
}

/// Where the negotiation stands.  The recorded window size is carried
/// through every stage; a configuration exists only in `Complete`, and an
/// error only in `Failed`.
#[derive(Clone, Copy, Debug, PartialEq, Eq, Structural)]
pub enum NegotiationState {
    /// Waiting for the surface bound to the window.
    AwaitingSurface {
        /// The window size recorded when the negotiation began.
        size: WindowSize,
    },
    /// Waiting for a compatible adapter.
    AwaitingAdapter {
        /// The recorded window size.
        size: WindowSize,
    },
    /// Waiting for the device and queue.
    AwaitingDevice {
        /// The recorded window size.
        size: WindowSize,
    },
    /// Waiting for the surface's capability report.
    AwaitingCapabilities {
        /// The recorded window size.
        size: WindowSize,
    },
    /// Every stage succeeded; the context is fully negotiated.
    Complete {
        /// The assembled surface configuration.
        config: SurfaceConfig,
        /// The recorded window size the configuration was assembled from.
        size: WindowSize,
    },
    /// A stage failed; the negotiation is over.
    Failed {
        /// The stage whose failure ended the negotiation.
        error: ContextError,
    },
}

/// One transition of the negotiation.  An event that does not answer the
/// stage the negotiation is waiting on leaves the state unchanged, as does
/// a capability report that is not well formed (a report with an empty list
/// cannot configure a surface).  `Complete` and `Failed` are final: no
/// event changes them.
pub open spec fn spec_step(s: NegotiationState, e: NegotiationEvent) -> NegotiationState {
    match s {
        NegotiationState::AwaitingSurface { size } => match e {
            NegotiationEvent::SurfaceCreated => NegotiationState::AwaitingAdapter { size },
            NegotiationEvent::SurfaceFailed => NegotiationState::Failed {
                error: ContextError::SurfaceCreationFailed,
            },
            _ => s,
        },
        NegotiationState::AwaitingAdapter { size } => match e {
            NegotiationEvent::AdapterFound => NegotiationState::AwaitingDevice { size },
            NegotiationEvent::AdapterMissing => NegotiationState::Failed {
                error: ContextError::AdapterUnavailable,
            },
            _ => s,
        },
        NegotiationState::AwaitingDevice { size } => match e {
            NegotiationEvent::DeviceCreated => NegotiationState::AwaitingCapabilities { size },
            NegotiationEvent::DeviceFailed => NegotiationState::Failed {
                error: ContextError::DeviceCreationFailed,
            },
            _ => s,
        },
        NegotiationState::AwaitingCapabilities { size } => match e {
            NegotiationEvent::CapabilitiesQueried(caps) => if caps.well_formed() {
                NegotiationState::Complete { config: spec_build_config(size, caps), size }
            } else {
                s
            },
            _ => s,
        },
        _ => s,
    }
}

/// The state the negotiation reaches from `s` after the events of `events`,
/// fed in order.
pub open spec fn spec_run(s: NegotiationState, events: Seq<NegotiationEvent>) -> NegotiationState
    decreases events.len(),
{
    if events.len() == 0 {
        s
    } else {
        spec_run(spec_step(s, events[0]), events.drop_first())
    }
}

impl NegotiationState {
    /// Begin the negotiation for a window whose physical pixel size is
    /// `size`.  The size recorded here is the source of truth for the
    /// configuration; it is never re-queried.
    pub fn begin(size: WindowSize) -> (r: NegotiationState)
        ensures
            r == (NegotiationState::AwaitingSurface { size }),
    {
        NegotiationState::AwaitingSurface { size }
    }

    /// Advance the negotiation by one reported outcome.
    pub fn step(self, event: NegotiationEvent) -> (r: NegotiationState)
        ensures
            r == spec_step(self, event),
    {
        match self {
            NegotiationState::AwaitingSurface { size } => match event {
                NegotiationEvent::SurfaceCreated => NegotiationState::AwaitingAdapter { size },
                NegotiationEvent::SurfaceFailed => NegotiationState::Failed {
                    error: ContextError::SurfaceCreationFailed,
                },
                _ => self,
            },
            NegotiationState::AwaitingAdapter { size } => match event {
                NegotiationEvent::AdapterFound => NegotiationState::AwaitingDevice { size },
                NegotiationEvent::AdapterMissing => NegotiationState::Failed {
                    error: ContextError::AdapterUnavailable,
                },
                _ => self,
            },
            NegotiationState::AwaitingDevice { size } => match event {
                NegotiationEvent::DeviceCreated => NegotiationState::AwaitingCapabilities { size },
                NegotiationEvent::DeviceFailed => NegotiationState::Failed {
                    error: ContextError::DeviceCreationFailed,
                },
                _ => self,
            },
            NegotiationState::AwaitingCapabilities { size } => match event {
                NegotiationEvent::CapabilitiesQueried(caps) => if caps.is_well_formed() {
                    NegotiationState::Complete { config: build_surface_config(size, &caps), size }
                } else {
                    self
                },
                _ => self,
            },
            _ => self,
        }
    }

    /// The outside work to perform next, or nothing once the negotiation
    /// is over.
    pub fn pending_request(&self) -> (r: Option<PendingRequest>)
        ensures
            (*self is AwaitingSurface ==> r == Some(PendingRequest::CreateSurface)),
            (*self is AwaitingAdapter ==> r == Some(PendingRequest::RequestAdapter)),
            (*self is AwaitingDevice ==> r == Some(PendingRequest::RequestDevice)),
            (*self is AwaitingCapabilities ==> r == Some(PendingRequest::QueryCapabilities)),
            (*self is Complete || *self is Failed ==> r is None),
    {
        match self {
            NegotiationState::AwaitingSurface { .. } => Some(PendingRequest::CreateSurface),
            NegotiationState::AwaitingAdapter { .. } => Some(PendingRequest::RequestAdapter),
            NegotiationState::AwaitingDevice { .. } => Some(PendingRequest::RequestDevice),
            NegotiationState::AwaitingCapabilities { .. } => Some(
                PendingRequest::QueryCapabilities,
            ),
            NegotiationState::Complete { .. } => None,
            NegotiationState::Failed { .. } => None,
        }
    }

    /// The negotiated configuration, present exactly when the negotiation
    /// is complete.
    pub fn config(&self) -> (r: Option<SurfaceConfig>)
        ensures
            (*self matches NegotiationState::Complete { config, .. } ==> r == Some(config)),
            (!(*self is Complete) ==> r is None),
    {
        match self {
            NegotiationState::Complete { config, .. } => Some(*config),
            _ => None,
        }
    }

    /// The stage whose failure ended the negotiation, present exactly when
    /// the negotiation failed.
    pub fn error(&self) -> (r: Option<ContextError>)
        ensures
            (*self matches NegotiationState::Failed { error } ==> r == Some(error)),
            (!(*self is Failed) ==> r is None),
    {
        match self {
            NegotiationState::Failed { error } => Some(*error),
            _ => None,
        }
    }
}

/// The recorded window size threads unchanged through every state, and a
/// completed state's configuration reflects it together with the fixed
/// policy choices.
spec fn records_size(s: NegotiationState, size: WindowSize) -> bool {
    match s {
        NegotiationState::AwaitingSurface { size: sz } => sz == size,
        NegotiationState::AwaitingAdapter { size: sz } => sz == size,
        NegotiationState::AwaitingDevice { size: sz } => sz == size,
        NegotiationState::AwaitingCapabilities { size: sz } => sz == size,
        NegotiationState::Complete { config, size: sz } => {
            &&& sz == size
            &&& config.width == size.width
            &&& config.height == size.height
            &&& config.usage == TextureUsage::RenderAttachment
            &&& config.desired_maximum_frame_latency == DESIRED_MAXIMUM_FRAME_LATENCY
        },
        NegotiationState::Failed { .. } => true,
    }
}

proof fn lemma_step_records_size(s: NegotiationState, e: NegotiationEvent, size: WindowSize)
    requires
        records_size(s, size),
    ensures
        records_size(spec_step(s, e), size),
{
}

proof fn lemma_run_records_size(
    s: NegotiationState,
    events: Seq<NegotiationEvent>,
    size: WindowSize,
)
    requires
        records_size(s, size),
    ensures
        records_size(spec_run(s, events), size),
    decreases events.len(),
{
    if events.len() > 0 {
        lemma_step_records_size(s, events[0], size);
        lemma_run_records_size(spec_step(s, events[0]), events.drop_first(), size);
    }
}

/// Law: however the negotiation runs, a completed context's configuration
/// carries exactly the window size recorded when the negotiation began,
/// render-target usage, and the fixed frame-latency bound.
pub proof fn lemma_complete_config_matches_recorded_size(
    size: WindowSize,
    events: Seq<NegotiationEvent>,
)
    ensures
        (spec_run(NegotiationState::AwaitingSurface { size }, events)
            matches NegotiationState::Complete { config, size: recorded } ==> {
            &&& recorded == size
            &&& config.width == size.width
            &&& config.height == size.height
            &&& config.usage == TextureUsage::RenderAttachment
            &&& config.desired_maximum_frame_latency == DESIRED_MAXIMUM_FRAME_LATENCY
        }),
{
    lemma_run_records_size(NegotiationState::AwaitingSurface { size }, events, size);
}

/// Law: a failure is terminal — once the negotiation has failed, no later
/// event changes the state, so no context is ever produced after a failure.
pub proof fn lemma_failed_is_absorbing(error: ContextError, events: Seq<NegotiationEvent>)
    ensures
        spec_run(NegotiationState::Failed { error }, events) == (NegotiationState::Failed {
            error,
        }),
    decreases events.len(),
{
    if events.len() > 0 {
        lemma_failed_is_absorbing(error, events.drop_first());
    }
}

/// Law: when the platform cannot produce a surface, the whole construction
/// fails with `SurfaceCreationFailed`, whatever is reported afterwards.
pub proof fn lemma_surface_failure_is_terminal(size: WindowSize, events: Seq<NegotiationEvent>)
    requires
        events.len() > 0,
        events[0] is SurfaceFailed,
    ensures
        spec_run(NegotiationState::AwaitingSurface { size }, events)
            == (NegotiationState::Failed { error: ContextError::SurfaceCreationFailed }),
{
    lemma_failed_is_absorbing(ContextError::SurfaceCreationFailed, events.drop_first());
}

/// Whether `events` reports a created surface.
pub open spec fn reports_surface_created(events: Seq<NegotiationEvent>) -> bool {
    exists|i: int| 0 <= i < events.len() && events[i] is SurfaceCreated
}

/// Whether `events` reports a found adapter.
pub open spec fn reports_adapter_found(events: Seq<NegotiationEvent>) -> bool {
    exists|i: int| 0 <= i < events.len() && events[i] is AdapterFound
}

/// Whether `events` reports a created device.
pub open spec fn reports_device_created(events: Seq<NegotiationEvent>) -> bool {
    exists|i: int| 0 <= i < events.len() && events[i] is DeviceCreated
}

/// Whether `events` reports a well-formed capability report.
pub open spec fn reports_capabilities(events: Seq<NegotiationEvent>) -> bool {
    exists|i: int|
        0 <= i < events.len() && ((#[trigger] events[i])
            matches NegotiationEvent::CapabilitiesQueried(c) && c.well_formed())
}

proof fn lemma_reports_shift(events: Seq<NegotiationEvent>)
    requires
        events.len() > 0,
    ensures
        reports_surface_created(events.drop_first()) ==> reports_surface_created(events),
        reports_adapter_found(events.drop_first()) ==> reports_adapter_found(events),
        reports_device_created(events.drop_first()) ==> reports_device_created(events),
        reports_capabilities(events.drop_first()) ==> reports_capabilities(events),
{
    let rest = events.drop_first();
    if reports_surface_created(rest) {
        let i = choose|i: int| 0 <= i < rest.len() && rest[i] is SurfaceCreated;
        assert(events[i + 1] == rest[i]);
    }
    if reports_adapter_found(rest) {
        let i = choose|i: int| 0 <= i < rest.len() && rest[i] is AdapterFound;
        assert(events[i + 1] == rest[i]);
    }
    if reports_device_created(rest) {
        let i = choose|i: int| 0 <= i < rest.len() && rest[i] is DeviceCreated;
        assert(events[i + 1] == rest[i]);
    }
    if reports_capabilities(rest) {
        let i = choose|i: int|
            0 <= i < rest.len() && ((#[trigger] rest[i])
                matches NegotiationEvent::CapabilitiesQueried(c) && c.well_formed());
        assert(events[i + 1] == rest[i]);
    }
}

proof fn lemma_complete_needs_events(s: NegotiationState, events: Seq<NegotiationEvent>)
    requires
        spec_run(s, events) is Complete,
    ensures
        s is AwaitingSurface ==> {
            &&& reports_surface_created(events)
            &&& reports_adapter_found(events)
            &&& reports_device_created(events)
            &&& reports_capabilities(events)
        },
        s is AwaitingAdapter ==> {
            &&& reports_adapter_found(events)
            &&& reports_device_created(events)
            &&& reports_capabilities(events)
        },
        s is AwaitingDevice ==> {
            &&& reports_device_created(events)
            &&& reports_capabilities(events)
        },
        s is AwaitingCapabilities ==> reports_capabilities(events),
    decreases events.len(),
{
    if events.len() > 0 {
        let e0 = events[0];
        let s1 = spec_step(s, e0);
        if s1 is Failed {
            lemma_failed_is_absorbing(s1->Failed_error, events.drop_first());
        } else {
            lemma_complete_needs_events(s1, events.drop_first());
            lemma_reports_shift(events);
            if s is AwaitingSurface && e0 is SurfaceCreated {
                assert(reports_surface_created(events));
            }
            if s is AwaitingAdapter && e0 is AdapterFound {
                assert(reports_adapter_found(events));
            }
            if s is AwaitingDevice && e0 is DeviceCreated {
                assert(reports_device_created(events));
            }
            if s is AwaitingCapabilities && s1 is Complete {
                assert(e0 matches NegotiationEvent::CapabilitiesQueried(c) && c.well_formed());
                assert(reports_capabilities(events));
            }
        }
    }
}

/// Law: a context is produced only when every stage of the negotiation
/// succeeded — a complete state is reachable only from a run that reported
/// a created surface, a found adapter, a created device, and a well-formed
/// capability report.  No context is observable with any stage missing.
pub proof fn lemma_complete_implies_all_stages_succeeded(
    size: WindowSize,
    events: Seq<NegotiationEvent>,
)
    requires
        spec_run(NegotiationState::AwaitingSurface { size }, events) is Complete,
    ensures
        reports_surface_created(events),
        reports_adapter_found(events),
        reports_device_created(events),
        reports_capabilities(events),
{
    lemma_complete_needs_events(NegotiationState::AwaitingSurface { size }, events);
}

} // verus!
