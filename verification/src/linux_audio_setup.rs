//! Virtual audio device management for PipeWire and PulseAudio: the
//! decisions and the parsing of the audio server's listings.
//!
//! Running the control utility, the shell probes and the file edits is the
//! surrounding application's business; the functions here take the probes'
//! plain results and decide. The virtual sink is named `VailZoomer` and
//! the virtual microphone `VailZoomerMic`.

use vstd::prelude::*;
use crate::text::{
    first_token, first_token_of, line_has_spec, seq_contains, seq_contains_ci, split_lines,
    split_lines_spec, str_contains, str_contains_ci,
};

verus! {

/// The Linux audio system in use.
#[derive(Clone, Copy, Debug, PartialEq, Eq, Structural)]
pub enum AudioSystem {
    PipeWire,
    PulseAudio,
    Unknown,
}

/// Result of checking for the virtual audio devices.
#[derive(Clone, Debug)]
pub struct VirtualAudioStatus {
    pub exists: bool,
    pub audio_system: AudioSystem,
    pub pactl_installed: bool,
}

/// Result of a setup run, with a step-by-step log for display.
#[derive(Clone, Debug)]
pub struct SetupResult {
    pub success: bool,
    pub message: String,
    pub log: Vec<String>,
    pub devices_created: Vec<String>,
}

/// How one module-load attempt ended, read from the control utility's
/// exit status and error text.
#[derive(Clone, Copy, Debug, PartialEq, Eq, Structural)]
pub enum ModuleLoadOutcome {
    Created,
    AlreadyExists,
    Failed,
}

/// The detection decision: the server info text wins when the control
/// utility answered (a PipeWire compatibility layer names itself there);
/// otherwise the service and process probes decide, PipeWire first.
pub open spec fn detect_spec(
    pactl_info: Option<Seq<char>>,
    pipewire_service_active: bool,
    pulseaudio_service_active: bool,
    pipewire_process_running: bool,
) -> AudioSystem {
    match pactl_info {
        Some(info) => if seq_contains_ci(info, "pipewire"@) {
            AudioSystem::PipeWire
        } else {
            AudioSystem::PulseAudio
        },
        None => if pipewire_service_active {
            AudioSystem::PipeWire
        } else if pulseaudio_service_active {
            AudioSystem::PulseAudio
        } else if pipewire_process_running {
            AudioSystem::PipeWire
        } else {
            AudioSystem::Unknown
        },
    }
}

/// Detect whether the system runs PipeWire or PulseAudio.
///
/// `pactl_info` is the server info text, if the control utility ran
/// successfully; the three flags report whether the PipeWire user
/// service, the PulseAudio user service, and a PipeWire process were
/// found.
pub fn detect_audio_system(
    pactl_info: Option<&str>,
    pipewire_service_active: bool,
    pulseaudio_service_active: bool,
    pipewire_process_running: bool,
) -> (r: AudioSystem)
    ensures
        r == detect_spec(
            (match pactl_info {
                Some(s) => Some(s@),
                None => None,
            }),
            pipewire_service_active,
            pulseaudio_service_active,
            pipewire_process_running,
        ),
{
    match pactl_info {
        Some(info) => {
            if str_contains_ci(info, "pipewire") {
                AudioSystem::PipeWire
            } else {
                AudioSystem::PulseAudio
            }
        },
        None => {
            if pipewire_service_active {
                AudioSystem::PipeWire
            } else if pulseaudio_service_active {
                AudioSystem::PulseAudio
            } else if pipewire_process_running {
                AudioSystem::PipeWire
            } else {
                AudioSystem::Unknown
            }
        },
    }
}

/// The virtual microphone shows in the source listing.
pub open spec fn source_exists_spec(sources: Seq<char>) -> bool {
    line_has_spec(split_lines_spec(sources), "VailZoomerMic"@)
}

/// The virtual sink shows in the sink listing: a line naming `VailZoomer`
/// that is not the microphone's.
pub open spec fn sink_exists_spec(sinks: Seq<char>) -> bool {
    exists|i: int|
        0 <= i < split_lines_spec(sinks).len() && seq_contains(
            #[trigger] split_lines_spec(sinks)[i],
            "VailZoomer"@,
        ) && !seq_contains(split_lines_spec(sinks)[i], "VailZoomerMic"@)
}

/// Check whether both virtual devices exist, given the `pactl` source and
/// sink listings. Without the control utility nothing can be checked and
/// the devices count as absent.
pub fn check_virtual_audio_device(
    pactl_installed: bool,
    audio_system: AudioSystem,
    sources: &str,
    sinks: &str,
) -> (r: VirtualAudioStatus)
    ensures
        r.audio_system == audio_system,
        r.pactl_installed == pactl_installed,
        !pactl_installed ==> !r.exists,
        pactl_installed ==> r.exists == (source_exists_spec(sources@) && sink_exists_spec(
            sinks@,
        )),
{
    if !pactl_installed {
        return VirtualAudioStatus { exists: false, audio_system, pactl_installed: false };
    }
    let source_lines = split_lines(sources);
    let mut source_exists: bool = false;
    let mut i: usize = 0;
    while i < source_lines.len()
        invariant
            0 <= i <= source_lines@.len(),
            source_lines@.len() == split_lines_spec(sources@).len(),
            forall|k: int|
                0 <= k < source_lines@.len() ==> #[trigger] source_lines@[k]@
                    == split_lines_spec(sources@)[k],
            source_exists ==> source_exists_spec(sources@),
            !source_exists ==> forall|k: int|
                0 <= k < i ==> !seq_contains(#[trigger] split_lines_spec(sources@)[k],
                "VailZoomerMic"@),
        decreases source_lines@.len() - i,
    {
        if str_contains(source_lines[i].as_str(), "VailZoomerMic") {
            source_exists = true;
        }
        i = i + 1;
    }
    let sink_lines = split_lines(sinks);
    let mut sink_exists: bool = false;
    let mut j: usize = 0;
    while j < sink_lines.len()
        invariant
            0 <= j <= sink_lines@.len(),
            sink_lines@.len() == split_lines_spec(sinks@).len(),
            forall|k: int|
                0 <= k < sink_lines@.len() ==> #[trigger] sink_lines@[k]@ == split_lines_spec(
                    sinks@,
                )[k],
            sink_exists ==> sink_exists_spec(sinks@),
            !sink_exists ==> forall|k: int|
                0 <= k < j ==> !(seq_contains(#[trigger] split_lines_spec(sinks@)[k],
                "VailZoomer"@) && !seq_contains(split_lines_spec(sinks@)[k], "VailZoomerMic"@)),
        decreases sink_lines@.len() - j,
    {
        if str_contains(sink_lines[j].as_str(), "VailZoomer") && !str_contains(
            sink_lines[j].as_str(),
            "VailZoomerMic",
        ) {
            sink_exists = true;
        }
        j = j + 1;
    }
    VirtualAudioStatus {
        exists: source_exists && sink_exists,
        audio_system,
        pactl_installed: true,
    }
}

/// A module line belonging to the virtual devices.
pub open spec fn module_line_matches(line: Seq<char>) -> bool {
    seq_contains(line, "VailZoomer"@) || seq_contains(line, "Vail_Zoomer"@)
}

/// The module identifiers to unload, in forward listing order.
pub open spec fn module_ids_spec(lines: Seq<Seq<char>>) -> Seq<Seq<char>>
    decreases lines.len(),
{
    if lines.len() == 0 {
        Seq::empty()
    } else {
        module_ids_spec(lines.drop_last()) + (if module_line_matches(lines.last()) {
            seq![first_token(lines.last())]
        } else {
            Seq::empty()
        })
    }
}

/// The unload plan for the `pactl` module listing: the identifier of each
/// line naming the virtual devices, newest first (modules unload in
/// reverse order of loading).
pub open spec fn cleanup_plan_spec(modules: Seq<char>) -> Seq<Seq<char>> {
    module_ids_spec(split_lines_spec(modules)).reverse()
}

/// Select, from the `pactl` module listing, the modules to unload so that
/// the virtual audio devices disappear: newest first.
pub fn cleanup_virtual_audio_devices(modules: &str) -> (r: Vec<String>)
    ensures
        r@.len() == cleanup_plan_spec(modules@).len(),
        forall|i: int|
            0 <= i < r@.len() ==> #[trigger] r@[i]@ == cleanup_plan_spec(modules@)[i],
{
    let lines = split_lines(modules);
    let mut forward: Vec<String> = Vec::new();
    let mut i: usize = 0;
    proof {
        assert(split_lines_spec(modules@).take(0) =~= Seq::<Seq<char>>::empty());
        assert(forward@.map_values(|x: String| x@) =~= Seq::<Seq<char>>::empty());
    }
    while i < lines.len()
        invariant
            0 <= i <= lines@.len(),
            lines@.len() == split_lines_spec(modules@).len(),
            forall|k: int|
                0 <= k < lines@.len() ==> #[trigger] lines@[k]@ == split_lines_spec(modules@)[k],
            forward@.map_values(|x: String| x@) =~= module_ids_spec(
                split_lines_spec(modules@).take(i as int),
            ),
        decreases lines@.len() - i,
    {
        let ghost fwd_before = forward@;
        let ghost all = split_lines_spec(modules@);
        if str_contains(lines[i].as_str(), "VailZoomer") || str_contains(
            lines[i].as_str(),
            "Vail_Zoomer",
        ) {
            let tok = first_token_of(lines[i].as_str());
            forward.push(tok);
        }
        proof {
            assert(all.take(i as int + 1).drop_last() =~= all.take(i as int));
            assert(all.take(i as int + 1).last() == all[i as int]);
            assert(forward@.map_values(|x: String| x@) =~= module_ids_spec(
                all.take(i as int + 1),
            ));
        }
        i = i + 1;
    }
    proof {
        assert(split_lines_spec(modules@).take(lines@.len() as int) =~= split_lines_spec(
            modules@,
        ));
    }
    // Reverse: newest listed module first.
    let mut out: Vec<String> = Vec::new();
    let mut j: usize = forward.len();
    while j > 0
        invariant
            0 <= j <= forward@.len(),
            out@.len() == forward@.len() - j,
            forward@.map_values(|x: String| x@) == module_ids_spec(split_lines_spec(modules@)),
            forall|k: int|
                0 <= k < out@.len() ==> #[trigger] out@[k]@ == forward@[forward@.len() - 1 - k]@,
        decreases j,
    {
        let item = forward[j - 1].clone();
        out.push(item);
        j = j - 1;
    }
    proof {
        let ids = module_ids_spec(split_lines_spec(modules@));
        assert(ids.reverse().len() == ids.len());
        assert forall|k: int| 0 <= k < out@.len() implies #[trigger] out@[k]@ == ids.reverse()[k]
        by {
            assert(out@[k]@ == forward@[forward@.len() - 1 - k]@);
            assert(forward@.map_values(|x: String| x@)[forward@.len() - 1 - k] == ids[ids.len()
                - 1 - k]);
        }
    }
    out
}

/// How a module-load attempt ended: a failure whose error text says the
/// module already exists is not a failure.
pub fn classify_module_load(success: bool, stderr: &str) -> (r: ModuleLoadOutcome)
    ensures
        success ==> r == ModuleLoadOutcome::Created,
        !success && (seq_contains(stderr@, "already"@) || seq_contains(stderr@, "exists"@))
            ==> r == ModuleLoadOutcome::AlreadyExists,
        !success && !(seq_contains(stderr@, "already"@) || seq_contains(stderr@, "exists"@))
            ==> r == ModuleLoadOutcome::Failed,
{
    if success {
        ModuleLoadOutcome::Created
    } else if str_contains(stderr, "already") || str_contains(stderr, "exists") {
        ModuleLoadOutcome::AlreadyExists
    } else {
        ModuleLoadOutcome::Failed
    }
}

} // verus!
