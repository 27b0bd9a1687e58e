use speaker_capture::input::{
    get_default_monitor_source, resolve_capture_source, SpeakerInput,
};

#[test]
fn explicit_device_resolves_to_its_monitor() {
    let input = SpeakerInput::new(Some("alsa_output.pci-0000.analog-stereo".to_string())).unwrap();
    assert_eq!(
        input.into_source_name(),
        Some("alsa_output.pci-0000.analog-stereo.monitor".to_string())
    );
}

#[test]
fn missing_device_defers_resolution() {
    let input = SpeakerInput::new(None).unwrap();
    assert_eq!(input.into_source_name(), None);
}

#[test]
fn empty_device_defers_resolution() {
    let input = SpeakerInput::new(Some(String::new())).unwrap();
    assert_eq!(input.into_source_name(), None);
}

#[test]
fn default_sentinel_defers_resolution() {
    let input = SpeakerInput::new(Some("default".to_string())).unwrap();
    assert_eq!(input.into_source_name(), None);
}

#[test]
fn default_monitor_source_sentinel() {
    assert_eq!(get_default_monitor_source(), Some("@DEFAULT_MONITOR@".to_string()));
}

#[test]
fn capture_source_uses_explicit_name() {
    assert_eq!(
        resolve_capture_source(Some("sink.monitor".to_string())),
        Some("sink.monitor".to_string())
    );
}

#[test]
fn capture_source_falls_back_to_default_monitor() {
    assert_eq!(resolve_capture_source(None), Some("@DEFAULT_MONITOR@".to_string()));
}
