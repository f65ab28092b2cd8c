use padm_exporter::device::loader::{load_all_from, DeviceRecord};
use padm_exporter::device::schema::Device;
use padm_exporter::device::variables::{is_metric, lookup, mutate_variable, unpack_variable, Variable};
use padm_exporter::server::probe::format_output_from_devices;

fn label(name: &str, value: &str) -> Option<Vec<(String, String)>> {
    Some(vec![(name.to_string(), value.to_string())])
}

#[test]
fn firmware_version_becomes_one() {
    assert_eq!(mutate_variable("firmware_version", "15.5.7"), ("1", label("version", "15.5.7")));
    assert_eq!(mutate_variable("firmware_version", ""), ("1", label("version", "")));
}

#[test]
fn operating_mode_numbers() {
    for (value, number) in [
        ("Off", "0"),
        ("Idle", "1"),
        ("Cooling", "2"),
        ("Dehumidifying", "4"),
        ("Defrosting", "5"),
        ("Not Connected", "6"),
        ("anything", "6"),
    ] {
        assert_eq!(mutate_variable("operating_mode", value), (number, label("mode", value)));
    }
}

#[test]
fn fan_speed_numbers() {
    for (value, number) in [
        ("Low", "1"),
        ("Medium", "3"),
        ("High", "5"),
        ("Auto", "6"),
        ("Off", "10"),
        ("Low (Auto)", "11"),
        ("Medium Low (Auto)", "12"),
        ("Medium (Auto)", "13"),
        ("Medium High (Auto)", "14"),
        ("High (Auto)", "15"),
        ("low", "6"),
    ] {
        assert_eq!(mutate_variable("fan_speed", value), (number, label("speed", value)));
    }
}

#[test]
fn two_state_numbers() {
    let table = [
        ("lcd_display_units", "units", "Metric", "0", "English", "1", "1"),
        ("dehumidifying_mode", "state", "Off", "0", "On", "1", "1"),
        ("water_fault", "fault", "Not Full", "0", "Full", "1", "1"),
        ("automatic_fan_speed_state", "state", "Off", "0", "On", "1", "1"),
        ("fan_always_on", "enabled", "No", "0", "Yes", "1", "1"),
        ("quiet_mode", "state", "Disabled", "0", "Enabled", "1", "1"),
        ("remote_temperature_sensor_state", "state", "Disabled", "0", "Enabled", "1", "1"),
        ("temperature_supported", "supported", "Yes", "1", "No", "2", "1"),
        ("humidity_supported", "supported", "Yes", "1", "No", "2", "1"),
    ];
    for (name, key, first, first_number, second, second_number, other_number) in table {
        assert_eq!(mutate_variable(name, first), (first_number, label(key, first)));
        assert_eq!(mutate_variable(name, second), (second_number, label(key, second)));
        assert_eq!(mutate_variable(name, "?"), (other_number, label(key, "?")));
    }
}

#[test]
fn other_variables_keep_their_value() {
    assert_eq!(mutate_variable("temperature", "21.5"), ("21.5", None));
    assert_eq!(mutate_variable("", "Off"), ("Off", None));
    assert_eq!(mutate_variable("Operating Mode", "Off"), ("Off", None));
}

#[test]
fn catalog_lookup() {
    let entry = lookup("Contact Input Count").unwrap();
    assert_eq!(entry.name, "contact_input_count");
    assert_eq!(entry.vtype, "counter");
    assert_eq!(entry.help, "GPIO input contact counter.");
    let entry = lookup("Temperature (C) High Critical Threshold").unwrap();
    assert_eq!(entry.name, "temp_high_crit_threshold");
    assert_eq!(entry.vtype, "gauge");
    assert_eq!(entry.help, "Critically high temperature.");
    assert!(lookup("Cooling Mode").is_none());
    assert!(is_metric("Firmware Version"));
    assert!(is_metric("Fan Speed - Auto"));
    assert!(!is_metric("Device Up"));
    assert!(!is_metric(""));
}

#[test]
fn unpacked_variable_fields() {
    let variable = unpack_variable("Operating Mode", "Cooling");
    assert_eq!(variable.get("name"), "operating_mode");
    assert_eq!(variable.get("type"), "gauge");
    assert_eq!(variable.get("help"), "Device operating mode.");
    assert_eq!(variable.get("value"), "2");
    assert_eq!(variable.get("labels"), "");
    assert_eq!(variable.get(""), "");
    assert_eq!(variable.labels(), &label("mode", "Cooling"));
    assert_eq!(variable.name(), "operating_mode");
    assert_eq!(variable.vtype(), "gauge");
    assert_eq!(variable.help(), "Device operating mode.");
    assert_eq!(variable.value(), "2");
    let plain = unpack_variable("Temperature (C)", "21.5");
    assert_eq!(plain.get("name"), "temperature");
    assert_eq!(plain.get("value"), "21.5");
    assert_eq!(plain.labels(), &None);
}

#[test]
fn unpacked_variable_of_an_unknown_label_is_blank() {
    let variable = unpack_variable("Something", "Off");
    assert_eq!(variable.get("name"), "");
    assert_eq!(variable.get("type"), "");
    assert_eq!(variable.get("help"), "");
    assert_eq!(variable.get("value"), "Off");
    assert_eq!(variable.labels(), &None);
}

fn record(id: i64, device: &str, label: &str, value: &str) -> DeviceRecord {
    DeviceRecord {
        device_id: id,
        device_name: device.to_string(),
        device_type: "cooling".to_string(),
        label: label.to_string(),
        value: value.to_string(),
    }
}

#[test]
fn records_are_grouped_by_device() {
    let records = vec![
        record(7, "RackB", "Temperature (C)", "21.5"),
        record(3, "RackA", "Fan Speed", "High"),
        record(7, "Renamed", "Operating Mode", "Idle"),
        record(3, "RackA", "Not In Catalog", "x"),
        record(9, "RackC", "Not In Catalog", "x"),
        record(3, "RackA", "Temperature (C)", "19"),
    ];
    let devices = load_all_from(&records);
    assert_eq!(devices.len(), 2);
    assert_eq!(devices[0].id, 7);
    assert_eq!(devices[0].name, "RackB");
    assert_eq!(devices[0].device_type, "cooling");
    let names: Vec<&str> = devices[0].variables.iter().map(|v| v.get("name")).collect();
    assert_eq!(names, vec!["temperature", "operating_mode"]);
    assert_eq!(devices[1].id, 3);
    assert_eq!(devices[1].name, "RackA");
    let values: Vec<&str> = devices[1].variables.iter().map(|v| v.get("value")).collect();
    assert_eq!(values, vec!["5", "19"]);
    assert!(load_all_from(&Vec::new()).is_empty());
}

#[test]
fn grouping_many_devices_keeps_first_seen_order() {
    let mut records = Vec::new();
    for round in 0..3 {
        for id in [40i64, -1, 12, 0, 99] {
            records.push(record(id, &format!("dev{}", id), "Temperature (C)", &format!("{}", round)));
        }
    }
    let devices = load_all_from(&records);
    let ids: Vec<i64> = devices.iter().map(|d| d.id).collect();
    assert_eq!(ids, vec![40, -1, 12, 0, 99]);
    for device in &devices {
        let values: Vec<&str> = device.variables.iter().map(|v| v.get("value")).collect();
        assert_eq!(values, vec!["0", "1", "2"]);
    }
}

fn device(name: &str, variables: Vec<Variable>) -> Device {
    Device { id: 1, name: name.to_string(), device_type: "cooling".to_string(), variables }
}

#[test]
fn output_groups_samples_by_metric_name() {
    let devices = vec![
        device(
            "RackA",
            vec![
                unpack_variable("Temperature (C)", "21.5"),
                unpack_variable("Operating Mode", "Cooling"),
            ],
        ),
        device(
            "RackB",
            vec![
                unpack_variable("Operating Mode", "Off"),
                unpack_variable("Contact Input Count", "4"),
                unpack_variable("Temperature (C)", "19"),
            ],
        ),
    ];
    assert_eq!(
        format_output_from_devices(&devices),
        "# HELP temperature Current detected temperature.\n\
         # TYPE temperature gauge\n\
         padm_temperature{device=\"RackA\"} 21.5\n\
         padm_temperature{device=\"RackB\"} 19\n\
         # HELP operating_mode Device operating mode.\n\
         # TYPE operating_mode gauge\n\
         padm_operating_mode{device=\"RackA\",mode=\"Cooling\"} 2\n\
         padm_operating_mode{device=\"RackB\",mode=\"Off\"} 0\n\
         # HELP contact_input_count GPIO input contact counter.\n\
         # TYPE contact_input_count counter\n\
         padm_contact_input_count{device=\"RackB\"} 4\n"
    );
}

#[test]
fn output_takes_type_and_help_from_the_first_sample() {
    let first = Variable::new(
        "thing".to_string(),
        "gauge".to_string(),
        "First.".to_string(),
        "1".to_string(),
        Some(vec![
            ("a".to_string(), "x".to_string()),
            ("b".to_string(), "y".to_string()),
        ]),
    );
    let second = Variable::new(
        "thing".to_string(),
        "counter".to_string(),
        "Second.".to_string(),
        "2".to_string(),
        Some(Vec::new()),
    );
    assert_eq!(
        format_output_from_devices(&vec![device("RackA", vec![first, second])]),
        "# HELP thing First.\n\
         # TYPE thing gauge\n\
         padm_thing{device=\"RackA\",a=\"x\",b=\"y\"} 1\n\
         padm_thing{device=\"RackA\"} 2\n"
    );
}

#[test]
fn output_of_nothing_is_empty() {
    assert_eq!(format_output_from_devices(&Vec::new()), "");
    assert_eq!(format_output_from_devices(&vec![device("RackA", Vec::new())]), "");
}
