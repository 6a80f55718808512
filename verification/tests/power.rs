use cosmic_audio_bg::power::{
    battery_discharging, is_battery_supply, is_lid_device, lid_reports_closed, InputDeviceReading,
    SupplyReading,
};

fn supply(kind: Option<&str>, status: Option<&str>) -> SupplyReading {
    SupplyReading { kind: kind.map(str::to_string), status: status.map(str::to_string) }
}

fn input(name: Option<&str>, state: Option<&str>) -> InputDeviceReading {
    InputDeviceReading { name: name.map(str::to_string), state: state.map(str::to_string) }
}

#[test]
fn battery_kind_is_trimmed_and_exact() {
    assert!(is_battery_supply("Battery\n"));
    assert!(!is_battery_supply("Mains\n"));
    assert!(!is_battery_supply("battery"));
    assert!(!is_battery_supply("Batteryx"));
}

#[test]
fn first_readable_battery_decides() {
    assert!(!battery_discharging(&vec![]));
    assert!(battery_discharging(&vec![
        supply(Some("Mains\n"), Some("Discharging\n")),
        supply(None, None),
        supply(Some("Battery\n"), Some("Discharging\n")),
    ]));
    assert!(!battery_discharging(&vec![
        supply(Some("Battery\n"), Some("Charging\n")),
        supply(Some("Battery\n"), Some("Discharging\n")),
    ]));
    assert!(battery_discharging(&vec![
        supply(Some("Battery\n"), None),
        supply(Some("Battery\n"), Some("Discharging\n")),
    ]));
    assert!(!battery_discharging(&vec![supply(Some("Mains\n"), Some("Discharging\n"))]));
}

#[test]
fn acpi_lid_state_decides_first() {
    assert!(lid_reports_closed(Some("state:      closed\n".to_string()), &vec![]));
    assert!(!lid_reports_closed(
        Some("state:      open\n".to_string()),
        &vec![input(Some("Lid Switch\n"), Some("closed\n"))]
    ));
}

#[test]
fn input_devices_decide_without_acpi() {
    assert!(is_lid_device("  Lid Switch\n"));
    assert!(!is_lid_device("Power Button\n"));
    assert!(!lid_reports_closed(None, &vec![]));
    assert!(lid_reports_closed(
        None,
        &vec![
            input(Some("Power Button"), Some("closed")),
            input(Some("Lid Switch"), None),
            input(Some("Lid Switch"), Some(" closed\n")),
        ]
    ));
    assert!(!lid_reports_closed(
        None,
        &vec![input(Some("Lid Switch"), Some("open")), input(Some("Lid Switch"), Some("closed"))]
    ));
}
