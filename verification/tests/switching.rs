use monitor_switch::monitors::DisplayReport;
use monitor_switch::switching::{switch, SwitchError, VcpCommand};

fn named(name: &str) -> DisplayReport {
    DisplayReport { model_name: Some(name.to_string()), input_source: None }
}

#[test]
fn one_matching_display_gets_exactly_one_command() {
    let reports = vec![named("M1"), named("M2")];
    let plan = switch(&reports, &"M1".to_string(), &"HDMI 1".to_string()).unwrap();
    assert_eq!(plan, vec![VcpCommand { display: 0, feature: 0x60, value: 0x11 }]);
}

#[test]
fn only_the_matching_display_is_touched() {
    let reports = vec![named("Other"), named("M1"), named("Other")];
    let plan = switch(&reports, &"M1".to_string(), &"DisplayPort 2".to_string()).unwrap();
    assert_eq!(plan, vec![VcpCommand { display: 1, feature: 0x60, value: 0x10 }]);
}

#[test]
fn every_display_sharing_the_name_is_switched_in_order() {
    let reports = vec![named("M1"), named("M2"), named("M1")];
    let plan = switch(&reports, &"M1".to_string(), &"DVI 2".to_string()).unwrap();
    assert_eq!(
        plan,
        vec![
            VcpCommand { display: 0, feature: 0x60, value: 0x04 },
            VcpCommand { display: 2, feature: 0x60, value: 0x04 },
        ]
    );
}

#[test]
fn zero_matching_displays_succeed_with_an_empty_plan() {
    let reports = vec![named("M2"), named("M3")];
    let plan = switch(&reports, &"M1".to_string(), &"HDMI 2".to_string()).unwrap();
    assert_eq!(plan, vec![]);
}

#[test]
fn a_display_without_a_model_name_never_matches() {
    let reports = vec![DisplayReport { model_name: None, input_source: None }];
    let plan = switch(&reports, &"".to_string(), &"HDMI 1".to_string()).unwrap();
    assert_eq!(plan, vec![]);
}

#[test]
fn matching_is_case_sensitive_and_exact() {
    let reports = vec![named("m1"), named("M1 ")];
    let plan = switch(&reports, &"M1".to_string(), &"HDMI 1".to_string()).unwrap();
    assert_eq!(plan, vec![]);
}

#[test]
fn an_unknown_input_label_is_a_reported_error_not_a_panic() {
    let reports = vec![named("M1")];
    let r = switch(&reports, &"M1".to_string(), &"SCART 1".to_string());
    match r {
        Err(SwitchError::UnknownInput { label }) => assert_eq!(label, "SCART 1"),
        Ok(_) => panic!("an unknown label must be rejected"),
    }
}

#[test]
fn the_unknown_input_message_names_the_label() {
    let e = SwitchError::UnknownInput { label: "SCART 1".to_string() };
    assert_eq!(e.message(), "unknown input: \"SCART 1\"");
}

#[test]
fn an_unknown_input_is_rejected_before_any_display_is_considered() {
    let reports: Vec<DisplayReport> = vec![];
    let r = switch(&reports, &"M1".to_string(), &"VGA 1".to_string());
    assert!(matches!(r, Err(SwitchError::UnknownInput { .. })));
}
