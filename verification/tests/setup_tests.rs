use vail_zoomer::config::Settings;
use vail_zoomer::linux_audio_setup::{
    check_virtual_audio_device, classify_module_load, cleanup_virtual_audio_devices,
    detect_audio_system, AudioSystem, ModuleLoadOutcome,
};
use vail_zoomer::text::{first_token_of, reports_active, split_lines, str_contains,
    str_contains_ci};

#[test]
fn test_detect_prefers_server_info() {
    assert_eq!(
        detect_audio_system(Some("Server Name: PulseAudio (on PipeWire 0.3.65)"), false, false, false),
        AudioSystem::PipeWire
    );
    assert_eq!(
        detect_audio_system(Some("Server Name: pulseaudio"), false, false, false),
        AudioSystem::PulseAudio
    );
    // An answer that names neither still means a PulseAudio-compatible
    // server answered.
    assert_eq!(
        detect_audio_system(Some("Server Name: something else"), false, false, false),
        AudioSystem::PulseAudio
    );
}

#[test]
fn test_detect_falls_back_to_probes() {
    assert_eq!(detect_audio_system(None, true, false, false), AudioSystem::PipeWire);
    assert_eq!(detect_audio_system(None, false, true, false), AudioSystem::PulseAudio);
    assert_eq!(detect_audio_system(None, false, false, true), AudioSystem::PipeWire);
    assert_eq!(detect_audio_system(None, false, false, false), AudioSystem::Unknown);
}

#[test]
fn test_check_virtual_audio_device_listings() {
    let sources = "0\talsa_input.usb\tmodule-alsa-card.c\n1\tVailZoomerMic\tmodule-remap-source.c";
    let sinks = "0\talsa_output.pci\tmodule-alsa-card.c\n1\tVailZoomer\tmodule-null-sink.c";
    let status = check_virtual_audio_device(true, AudioSystem::PipeWire, sources, sinks);
    assert!(status.exists);
    assert!(status.pactl_installed);
    assert_eq!(status.audio_system, AudioSystem::PipeWire);

    // The microphone's own line must not count as the sink.
    let sinks_only_mic = "1\tVailZoomerMic\tmodule-remap-source.c";
    let status = check_virtual_audio_device(true, AudioSystem::PipeWire, sources, sinks_only_mic);
    assert!(!status.exists);

    // Without the control utility nothing can be checked.
    let status = check_virtual_audio_device(false, AudioSystem::Unknown, sources, sinks);
    assert!(!status.exists);
    assert!(!status.pactl_installed);
}

#[test]
fn test_cleanup_plan_unloads_newest_first() {
    let modules = "\
12\tmodule-null-sink\tsink_name=VailZoomer sink_properties=device.description=\"Vail_Zoomer\"\n\
13\tmodule-alsa-card\tdevice_id=0\n\
14\tmodule-remap-source\tmaster=VailZoomer.monitor source_name=VailZoomerMic\n";
    let plan = cleanup_virtual_audio_devices(modules);
    assert_eq!(plan, vec!["14".to_string(), "12".to_string()]);
    assert!(cleanup_virtual_audio_devices("1\tmodule-alsa-card\n").is_empty());
}

#[test]
fn test_classify_module_load() {
    assert_eq!(classify_module_load(true, ""), ModuleLoadOutcome::Created);
    assert_eq!(
        classify_module_load(false, "Module already loaded"),
        ModuleLoadOutcome::AlreadyExists
    );
    assert_eq!(
        classify_module_load(false, "sink exists"),
        ModuleLoadOutcome::AlreadyExists
    );
    assert_eq!(
        classify_module_load(false, "Failure: bad argument"),
        ModuleLoadOutcome::Failed
    );
}

#[test]
fn test_text_utilities() {
    assert!(str_contains("hello pipewire world", "pipewire"));
    assert!(!str_contains("hello world", "pipewire"));
    assert!(str_contains_ci("On PipeWire", "pipewire"));
    assert!(str_contains_ci("", ""));
    assert!(!str_contains_ci("pipe", "pipewire"));

    let lines = split_lines("a\nbb\r\n\nccc");
    assert_eq!(lines, vec!["a".to_string(), "bb".to_string(), "".to_string(), "ccc".to_string()]);
    assert!(split_lines("").is_empty());
    assert_eq!(split_lines("x\n"), vec!["x".to_string()]);

    assert_eq!(first_token_of("  12\tmodule-null-sink"), "12".to_string());
    assert_eq!(first_token_of("   "), "".to_string());

    assert!(reports_active("active\n"));
    assert!(reports_active("  Active "));
    assert!(!reports_active("inactive\n"));
    assert!(!reports_active(""));
}

#[test]
fn test_settings_defaults() {
    let settings = Settings::default();
    assert_eq!(settings.wpm, 18);
    assert_eq!(settings.sidetone_frequency, 600);
    assert_eq!(settings.sidetone_volume, 16384);
    assert_eq!(settings.local_sidetone_volume, 9830);
    assert_eq!(settings.mic_volume, 32768);
    assert!(!settings.mic_ducking);
    assert!(settings.output_device.is_none());
}
