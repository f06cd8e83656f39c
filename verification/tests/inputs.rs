use monitor_switch::inputs::{input_code, INPUT_SELECT};

#[test]
fn input_select_is_the_mccs_input_source_code() {
    assert_eq!(INPUT_SELECT, 0x60);
}

#[test]
fn dvi_1_maps_to_0x03() {
    assert_eq!(input_code(&"DVI 1".to_string()), Some(0x03));
}

#[test]
fn dvi_2_maps_to_0x04() {
    assert_eq!(input_code(&"DVI 2".to_string()), Some(0x04));
}

#[test]
fn displayport_1_maps_to_0x0f() {
    assert_eq!(input_code(&"DisplayPort 1".to_string()), Some(0x0f));
}

#[test]
fn displayport_2_maps_to_0x10() {
    assert_eq!(input_code(&"DisplayPort 2".to_string()), Some(0x10));
}

#[test]
fn hdmi_1_maps_to_0x11() {
    assert_eq!(input_code(&"HDMI 1".to_string()), Some(0x11));
}

#[test]
fn hdmi_2_maps_to_0x12() {
    assert_eq!(input_code(&"HDMI 2".to_string()), Some(0x12));
}

#[test]
fn unknown_labels_are_not_in_the_table() {
    assert_eq!(input_code(&"Composite 1".to_string()), None);
    assert_eq!(input_code(&"hdmi 1".to_string()), None);
    assert_eq!(input_code(&"HDMI 1 ".to_string()), None);
    assert_eq!(input_code(&"".to_string()), None);
}
