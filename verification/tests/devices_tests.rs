use speaker_capture::devices::{
    collect_input_devices, collect_output_devices, name_has_monitor_suffix, DeviceInfo,
};

fn info(name: Option<&str>, description: Option<&str>) -> DeviceInfo {
    DeviceInfo {
        name: name.map(|s| s.to_string()),
        description: description.map(|s| s.to_string()),
    }
}

#[test]
fn monitor_suffix_detection() {
    assert!(name_has_monitor_suffix("alsa_output.pci-0000.analog-stereo.monitor"));
    assert!(name_has_monitor_suffix(".monitor"));
    assert!(name_has_monitor_suffix("a.monitor.b"));
    assert!(!name_has_monitor_suffix("monitor"));
    assert!(!name_has_monitor_suffix("alsa_input.usb-mic"));
    assert!(!name_has_monitor_suffix(""));
    assert!(!name_has_monitor_suffix(".monito"));
}

#[test]
fn monitors_are_excluded_from_inputs() {
    let items = vec![
        info(Some("alsa_output.pci.analog-stereo.monitor"), Some("Monitor of Speakers")),
        info(Some("alsa_input.usb-mic"), Some("USB Microphone")),
    ];
    let devices = collect_input_devices(&items, &None);
    assert_eq!(devices.len(), 1);
    assert_eq!(devices[0].id, "alsa_input.usb-mic");
    assert_eq!(devices[0].name, "USB Microphone");
    assert!(!devices[0].is_default);
}

#[test]
fn monitors_are_kept_in_outputs() {
    let items = vec![
        info(Some("sink.weird.monitor"), None),
        info(Some("alsa_output.hdmi"), Some("HDMI Output")),
    ];
    let devices = collect_output_devices(&items, &None);
    assert_eq!(devices.len(), 2);
    assert_eq!(devices[0].id, "sink.weird.monitor");
    assert_eq!(devices[1].id, "alsa_output.hdmi");
}

#[test]
fn unnamed_items_are_skipped() {
    let items = vec![info(None, Some("ghost device")), info(Some("real"), None)];
    let inputs = collect_input_devices(&items, &None);
    assert_eq!(inputs.len(), 1);
    assert_eq!(inputs[0].id, "real");
    let outputs = collect_output_devices(&items, &None);
    assert_eq!(outputs.len(), 1);
}

#[test]
fn display_name_falls_back_to_identifier() {
    let items = vec![info(Some("bare_source"), None)];
    let devices = collect_input_devices(&items, &None);
    assert_eq!(devices[0].id, "bare_source");
    assert_eq!(devices[0].name, "bare_source");
}

#[test]
fn default_flag_marks_exactly_the_matching_device() {
    let items = vec![
        info(Some("mic_a"), Some("Mic A")),
        info(Some("mic_b"), Some("Mic B")),
        info(Some("mic_c"), None),
    ];
    let default = Some("mic_b".to_string());
    let devices = collect_input_devices(&items, &default);
    assert_eq!(devices.len(), 3);
    assert!(!devices[0].is_default);
    assert!(devices[1].is_default);
    assert!(!devices[2].is_default);
}

#[test]
fn no_captured_default_marks_nothing() {
    let items = vec![info(Some("mic_a"), None), info(Some("mic_b"), None)];
    let devices = collect_input_devices(&items, &None);
    assert!(devices.iter().all(|d| !d.is_default));
    // A default name that matches no identifier marks nothing either.
    let devices2 = collect_input_devices(&items, &Some("mic_z".to_string()));
    assert!(devices2.iter().all(|d| !d.is_default));
}

#[test]
fn delivery_order_is_preserved() {
    let items = vec![
        info(Some("s3"), None),
        info(Some("s1"), None),
        info(Some("s2"), None),
    ];
    let devices = collect_output_devices(&items, &None);
    let ids: Vec<&str> = devices.iter().map(|d| d.id.as_str()).collect();
    assert_eq!(ids, vec!["s3", "s1", "s2"]);
}
