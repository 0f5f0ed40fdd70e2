//! The audio engine's command surface and its stream-lifecycle state
//! machine.
//!
//! Callers issue commands through a bounded queue; a single engine thread
//! consumes them strictly in order. The decisions — which streams should
//! exist, which control value changes, what native work is due — are taken
//! here; the surrounding application owns the native streams and performs
//! the returned action.

use vstd::prelude::*;
use crate::mixer::{AudioCore, RING_BUFFER_SIZE};
use crate::ring::{ring_capacity, ring_contents};
use crate::sidetone::GenView;

verus! {

/// Device info with display name and internal name for selection.
#[derive(Clone)]
pub struct DeviceInfo {
    /// User-friendly display name.
    pub display_name: String,
    /// Internal name used for device selection.
    pub internal_name: String,
}

/// Where the synthesized sidetone is routed.
#[derive(Clone, Copy, Debug, PartialEq, Eq, Structural)]
pub enum SidetoneRoute {
    /// Only to the virtual output device (silent locally).
    OutputOnly,
    /// Only to the local speakers.
    LocalOnly,
    /// Both outputs.
    Both,
}

/// Commands sent to the engine thread, consumed in arrival order.
pub enum AudioCommand {
    Start {
        output_device: Option<String>,
        input_device: Option<String>,
        local_device: Option<String>,
        sidetone_route: SidetoneRoute,
    },
    Stop,
    SetFrequency(u32),
    SetVolume(u16),
    SetLocalVolume(u16),
    SetMicVolume(u16),
    SetSidetoneRoute(SidetoneRoute),
    StartTestRecording,
    StopTestRecording,
    StartPlayback { device: Option<String> },
    StopPlayback,
    Shutdown,
}

/// Which native streams the engine intends to exist. Opening a stream can
/// still fail on the native side; partial success is the expected degraded
/// mode and does not change these intentions.
#[derive(Clone, Copy, Debug, PartialEq, Eq, Structural)]
pub struct StreamSet {
    pub input: bool,
    pub output: bool,
    pub local: bool,
    pub playback: bool,
}

/// The native work one command leaves for the stream owner.
pub enum EngineAction {
    /// Nothing to do outside the core.
    NoAction,
    /// Tear down the input, primary and local streams and open the set the
    /// route asks for.
    RebuildStreams {
        output_device: Option<String>,
        input_device: Option<String>,
        local_device: Option<String>,
        route: SidetoneRoute,
    },
    /// Open the playback stream.
    OpenPlayback { device: Option<String> },
    /// Tear down the playback stream.
    ClosePlayback,
    /// Tear down everything and leave the engine thread.
    Exit,
}

/// No streams at all.
pub open spec fn idle_streams() -> StreamSet {
    StreamSet { input: false, output: false, local: false, playback: false }
}

/// What `Stop` leaves: input, primary and local streams gone; a running
/// playback stream is not `Stop`'s business.
pub open spec fn stop_streams_spec(s: StreamSet) -> StreamSet {
    StreamSet { input: false, output: false, local: false, playback: s.playback }
}

/// Whether the primary output stream carries the sidetone for a route.
pub open spec fn route_includes_output(route: SidetoneRoute) -> bool {
    route == SidetoneRoute::OutputOnly || route == SidetoneRoute::Both
}

/// Whether a route asks for the local-monitor stream.
pub open spec fn route_needs_local(route: SidetoneRoute) -> bool {
    route == SidetoneRoute::LocalOnly || route == SidetoneRoute::Both
}

/// The streams a `Start` with this route intends: input and primary output
/// always, the local monitor only when the route asks for it.
pub open spec fn start_streams_spec(s: StreamSet, route: SidetoneRoute) -> StreamSet {
    StreamSet { input: true, output: true, local: route_needs_local(route), playback: s.playback }
}

/// Stream plan for a route: whether the primary mix includes the sidetone,
/// and whether a local-monitor stream is wanted.
pub fn plan_streams(route: SidetoneRoute) -> (r: (bool, bool))
    ensures
        r.0 == route_includes_output(route),
        r.1 == route_needs_local(route),
{
    let include_sidetone = match route {
        SidetoneRoute::OutputOnly => true,
        SidetoneRoute::LocalOnly => false,
        SidetoneRoute::Both => true,
    };
    let need_local = match route {
        SidetoneRoute::OutputOnly => false,
        SidetoneRoute::LocalOnly => true,
        SidetoneRoute::Both => true,
    };
    (include_sidetone, need_local)
}

/// The stable numbering of routes, as shared state stores them.
pub fn route_to_index(route: SidetoneRoute) -> (r: u32)
    ensures
        route == SidetoneRoute::OutputOnly ==> r == 0,
        route == SidetoneRoute::LocalOnly ==> r == 1,
        route == SidetoneRoute::Both ==> r == 2,
{
    match route {
        SidetoneRoute::OutputOnly => 0,
        SidetoneRoute::LocalOnly => 1,
        SidetoneRoute::Both => 2,
    }
}

/// Reading a route back from its number; anything unknown reads as `Both`.
pub fn route_from_index(index: u32) -> (r: SidetoneRoute)
    ensures
        index == 0 ==> r == SidetoneRoute::OutputOnly,
        index == 1 ==> r == SidetoneRoute::LocalOnly,
        index >= 2 ==> r == SidetoneRoute::Both,
{
    if index == 0 {
        SidetoneRoute::OutputOnly
    } else if index == 1 {
        SidetoneRoute::LocalOnly
    } else {
        SidetoneRoute::Both
    }
}

/// Process one command: apply control changes to the core, update which
/// streams should exist, and say what native work is left. `Stop` on an
/// already idle engine changes nothing at all, and `Stop` never touches
/// the core's levels or key state.
pub fn handle_command(core: &mut AudioCore, streams: &mut StreamSet, cmd: AudioCommand) -> (r:
    EngineAction)
    requires
        old(core).wf(),
    ensures
        final(core).wf(),
        (match cmd {
            AudioCommand::Start { sidetone_route, .. } => {
                &&& *final(streams) == start_streams_spec(*old(streams), sidetone_route)
                &&& *final(core) == (AudioCore {
                    mic_ring: final(core).mic_ring,
                    include_sidetone_in_output: route_includes_output(sidetone_route),
                    ..*old(core)
                })
                &&& ring_contents(&final(core).mic_ring) == Seq::<i32>::empty()
                &&& ring_capacity(&final(core).mic_ring) == RING_BUFFER_SIZE as int
                &&& (r matches EngineAction::RebuildStreams { route, .. }
                    && route == sidetone_route)
            },
            AudioCommand::Stop => {
                &&& *final(core) == *old(core)
                &&& *final(streams) == stop_streams_spec(*old(streams))
                &&& (r is NoAction)
            },
            AudioCommand::SetFrequency(f) => {
                &&& *final(core) == (AudioCore {
                    sidetone: final(core).sidetone,
                    local_sidetone: final(core).local_sidetone,
                    ..*old(core)
                })
                &&& final(core).sidetone.gen_view() == (GenView {
                    frequency: f as int,
                    ..old(core).sidetone.gen_view()
                })
                &&& final(core).local_sidetone.gen_view() == (GenView {
                    frequency: f as int,
                    ..old(core).local_sidetone.gen_view()
                })
                &&& *final(streams) == *old(streams)
                &&& (r is NoAction)
            },
            AudioCommand::SetVolume(v) => {
                &&& *final(core) == (AudioCore { sidetone: final(core).sidetone, ..*old(core) })
                &&& final(core).sidetone.gen_view() == (GenView {
                    volume: if v <= 32768 {
                        v as int
                    } else {
                        32768int
                    },
                    ..old(core).sidetone.gen_view()
                })
                &&& *final(streams) == *old(streams)
                &&& (r is NoAction)
            },
            AudioCommand::SetLocalVolume(v) => {
                &&& *final(core) == (AudioCore {
                    local_sidetone: final(core).local_sidetone,
                    ..*old(core)
                })
                &&& final(core).local_sidetone.gen_view() == (GenView {
                    volume: if v <= 32768 {
                        v as int
                    } else {
                        32768int
                    },
                    ..old(core).local_sidetone.gen_view()
                })
                &&& *final(streams) == *old(streams)
                &&& (r is NoAction)
            },
            AudioCommand::SetMicVolume(_) => {
                &&& *final(core) == *old(core)
                &&& *final(streams) == *old(streams)
                &&& (r is NoAction)
            },
            AudioCommand::SetSidetoneRoute(_) => {
                &&& *final(core) == *old(core)
                &&& *final(streams) == *old(streams)
                &&& (r is NoAction)
            },
            AudioCommand::StartTestRecording => {
                &&& *final(core) == *old(core)
                &&& *final(streams) == *old(streams)
                &&& (r is NoAction)
            },
            AudioCommand::StopTestRecording => {
                &&& *final(core) == *old(core)
                &&& *final(streams) == *old(streams)
                &&& (r is NoAction)
            },
            AudioCommand::StartPlayback { .. } => {
                &&& *final(core) == *old(core)
                &&& *final(streams) == (StreamSet { playback: true, ..*old(streams) })
                &&& (r is OpenPlayback)
            },
            AudioCommand::StopPlayback => {
                &&& *final(core) == *old(core)
                &&& *final(streams) == (StreamSet { playback: false, ..*old(streams) })
                &&& (r is ClosePlayback)
            },
            AudioCommand::Shutdown => {
                &&& *final(core) == *old(core)
                &&& *final(streams) == idle_streams()
                &&& (r is Exit)
            },
        }),
{
    match cmd {
        AudioCommand::Start { output_device, input_device, local_device, sidetone_route } => {
            let plan = plan_streams(sidetone_route);
            core.begin_streams(plan.0);
            streams.input = true;
            streams.output = true;
            streams.local = plan.1;
            EngineAction::RebuildStreams {
                output_device,
                input_device,
                local_device,
                route: sidetone_route,
            }
        },
        AudioCommand::Stop => {
            streams.input = false;
            streams.output = false;
            streams.local = false;
            EngineAction::NoAction
        },
        AudioCommand::SetFrequency(f) => {
            core.set_sidetone_frequency(f);
            EngineAction::NoAction
        },
        AudioCommand::SetVolume(v) => {
            core.set_sidetone_volume(v);
            EngineAction::NoAction
        },
        AudioCommand::SetLocalVolume(v) => {
            core.set_local_sidetone_volume(v);
            EngineAction::NoAction
        },
        AudioCommand::SetMicVolume(_) => {
            // The mic volume is read live from shared state by the output
            // callback; the command exists only for API symmetry.
            EngineAction::NoAction
        },
        AudioCommand::SetSidetoneRoute(_) => {
            // A route change restructures which streams exist, so it only
            // takes effect on the next Start.
            EngineAction::NoAction
        },
        AudioCommand::StartTestRecording => {
            // The recording flag flips at the control plane, together with
            // an emptied capture buffer.
            EngineAction::NoAction
        },
        AudioCommand::StopTestRecording => {
            EngineAction::NoAction
        },
        AudioCommand::StartPlayback { device } => {
            streams.playback = true;
            EngineAction::OpenPlayback { device }
        },
        AudioCommand::StopPlayback => {
            streams.playback = false;
            EngineAction::ClosePlayback
        },
        AudioCommand::Shutdown => {
            streams.input = false;
            streams.output = false;
            streams.local = false;
            streams.playback = false;
            EngineAction::Exit
        },
    }
}

/// Stopping an already idle engine is a no-op: no stream changes, and
/// `handle_command` leaves the core untouched on `Stop`.
pub proof fn lemma_stop_when_idle_is_noop(s: StreamSet)
    requires
        s == idle_streams(),
    ensures
        stop_streams_spec(s) == s,
{
}

} // verus!
