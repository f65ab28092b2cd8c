use padm_exporter::metrics::catalog::PADMMetric;
use padm_exporter::metrics::key::MetricKey;

fn key(name: &str, help: &str, labels: &[&str], is_enum: bool) -> MetricKey {
    MetricKey {
        name: name.to_string(),
        help: help.to_string(),
        labels: labels.iter().map(|s| s.to_string()).collect(),
        is_enum,
    }
}

#[test]
fn firmware_version_key_has_version_label() {
    assert_eq!(
        PADMMetric::FirmwareVersion.to_metric_key(),
        key(
            "padm_firmware_version_info",
            "Firmware version of the device.",
            &["device", "version"],
            false
        )
    );
}

#[test]
fn enumerated_keys_have_mode_label() {
    assert_eq!(
        PADMMetric::OperatingMode.to_metric_key(),
        key(
            "padm_operating_mode",
            "Current mode of operation of the device.",
            &["device", "mode"],
            true
        )
    );
    assert_eq!(
        PADMMetric::FanSpeedSetting.to_metric_key(),
        key(
            "padm_fan_speed_setting",
            "The current fan speed setting of the device.",
            &["device", "mode"],
            true
        )
    );
    assert!(PADMMetric::LcdDisplayUnits.to_metric_key().is_enum);
    assert!(PADMMetric::FanSpeed.to_metric_key().is_enum);
}

#[test]
fn scalar_keys_have_device_label_only() {
    assert_eq!(
        PADMMetric::Temperature.to_metric_key(),
        key(
            "padm_temperature_celsius",
            "Ambient temperature currently reported by the device, in degrees Celsius.",
            &["device"],
            false
        )
    );
    assert_eq!(
        PADMMetric::DeviceUp.to_metric_key(),
        key("padm_device_up", "Whether the device is detected and enabled.", &["device"], false)
    );
}

#[test]
fn every_name_bears_the_prefix() {
    let all = [
        PADMMetric::FirmwareVersion,
        PADMMetric::OperatingMode,
        PADMMetric::LcdDisplayUnits,
        PADMMetric::DehumidifyingMode,
        PADMMetric::WaterFault,
        PADMMetric::AutomaticFanSpeedState,
        PADMMetric::FanSpeed,
        PADMMetric::FanAlwaysOn,
        PADMMetric::QuietMode,
        PADMMetric::SetPointTemperature,
        PADMMetric::RemoteTemperatureSensorState,
        PADMMetric::ReturnAirTemperature,
        PADMMetric::RemoteSetPointTemperature,
        PADMMetric::Temperature,
        PADMMetric::TemperatureSupported,
        PADMMetric::HumiditySupported,
        PADMMetric::ContactInputCount,
        PADMMetric::ContactOutputCount,
        PADMMetric::TempLowCritThreshold,
        PADMMetric::TempHighCritThreshold,
        PADMMetric::CoolingMode,
        PADMMetric::FanSpeedSetting,
        PADMMetric::FaultConditions,
        PADMMetric::DeviceUp,
    ];
    let mut names: Vec<String> = Vec::new();
    for metric in all {
        let key = metric.to_metric_key();
        assert!(key.name.starts_with("padm_"));
        assert_eq!(key.labels[0], "device");
        assert!(!names.contains(&key.name));
        names.push(key.name);
    }
    assert_eq!(names.len(), 24);
}

#[test]
fn from_label_finds_known_labels() {
    assert_eq!(PADMMetric::from_label("Firmware Version"), Some(PADMMetric::FirmwareVersion));
    assert_eq!(PADMMetric::from_label("Fan Speed"), Some(PADMMetric::FanSpeed));
    assert_eq!(
        PADMMetric::from_label("Fan Speed - Auto"),
        Some(PADMMetric::AutomaticFanSpeedState)
    );
    assert_eq!(
        PADMMetric::from_label("Temperature (C) High Critical Threshold"),
        Some(PADMMetric::TempHighCritThreshold)
    );
    assert_eq!(PADMMetric::from_label("Device Up"), Some(PADMMetric::DeviceUp));
}

#[test]
fn from_label_knows_no_other_label() {
    assert_eq!(PADMMetric::from_label("fan speed"), None);
    assert_eq!(PADMMetric::from_label(""), None);
    assert_eq!(PADMMetric::from_label("LCD Display Details"), None);
    assert_eq!(PADMMetric::from_label("Fan Speed "), None);
}

#[test]
fn ignored_labels() {
    assert!(PADMMetric::is_ignored("LCD Display Details"));
    assert!(PADMMetric::is_ignored("Hardware Configuration"));
    assert!(PADMMetric::is_ignored("Temperature (C) Thresholds and Bounds"));
    assert!(!PADMMetric::is_ignored("Temperature (C)"));
    assert!(!PADMMetric::is_ignored(""));
}

#[test]
fn keys_are_equal_when_all_fields_are() {
    let a = PADMMetric::FanSpeed.to_metric_key();
    let b = a.clone();
    assert_eq!(a, b);
    let mut other_help = a.clone();
    other_help.help = "Other.".to_string();
    assert_ne!(a, other_help);
    let mut other_labels = a.clone();
    other_labels.labels = vec!["device".to_string()];
    assert_ne!(a, other_labels);
    let mut other_shape = a.clone();
    other_shape.is_enum = false;
    assert_ne!(a, other_shape);
    let mut other_name = a.clone();
    other_name.name = "padm_other".to_string();
    assert_ne!(a, other_name);
}
