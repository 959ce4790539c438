use beatsmr::splat_viewer::{NoDeviceWarning, SplatWarnings};

#[test]
fn editor_warnings_are_given_once() {
    let mut w = SplatWarnings::new();
    assert!(!w.on_no_camera(false));
    assert!(w.on_no_camera(true));
    assert!(!w.on_no_camera(true));

    assert!(!w.on_resources_created(true, false));
    assert!(w.on_resources_created(true, true));
    assert!(!w.on_resources_created(true, true));

    assert!(w.on_missing_preview(true));
    assert!(!w.on_missing_preview(true));
    assert!(w.no_camera && w.invalid_pipeline && w.missing_preview && !w.no_rendering_device);
}

#[test]
fn missing_device_message() {
    let mut w = SplatWarnings::new();
    assert_eq!(w.on_no_rendering_device(false), NoDeviceWarning::General);
    assert_eq!(w.on_no_rendering_device(true), NoDeviceWarning::Editor);
    assert_eq!(w.on_no_rendering_device(true), NoDeviceWarning::General);
    assert!(w.no_rendering_device);
}
