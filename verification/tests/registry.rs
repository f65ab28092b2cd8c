use padm_exporter::metrics::catalog::PADMMetric;
use padm_exporter::metrics::key::MetricKey;
use padm_exporter::metrics::registry::{
    exposition, holds_no_family, MetricsRegistry, RegistryError,
};

fn key(name: &str, help: &str, labels: &[&str]) -> MetricKey {
    MetricKey {
        name: name.to_string(),
        help: help.to_string(),
        labels: labels.iter().map(|s| s.to_string()).collect(),
        is_enum: false,
    }
}

fn values(list: &[&str]) -> Vec<String> {
    list.iter().map(|s| s.to_string()).collect()
}

fn text(registry: &MetricsRegistry) -> String {
    String::from_utf8(registry.encode().unwrap()).unwrap()
}

#[test]
fn new_registry_is_empty() {
    let registry = MetricsRegistry::new();
    assert_eq!(registry.len(), 0);
    assert!(registry.is_empty());
    assert_eq!(text(&registry), "");
}

#[test]
fn registering_a_key_twice_never_errors() {
    let mut registry = MetricsRegistry::new();
    let key = PADMMetric::Temperature.to_metric_key();
    assert!(matches!(registry.register(&key), Ok(0)));
    assert!(matches!(registry.register(&key), Ok(0)));
    assert!(matches!(registry.register(&key.clone()), Ok(0)));
    assert_eq!(registry.len(), 1);
    assert_eq!(registry.position(&key), Some(0));
}

#[test]
fn second_schema_for_a_name_is_rejected() {
    let mut registry = MetricsRegistry::new();
    let first = key("padm_thing", "A thing.", &["device"]);
    let second = key("padm_thing", "A thing.", &["device", "mode"]);
    let value = prometheus::core::Atomic::new(2.5);
    assert!(registry.update_metric(&first, &values(&["RackA"]), &value).is_ok());
    assert!(matches!(registry.register(&second), Err(RegistryError::Rejected(_))));
    assert!(matches!(
        registry.update_metric(&second, &values(&["RackA", "x"]), &value),
        Err(RegistryError::Rejected(_))
    ));
    assert_eq!(registry.len(), 1);
    assert_eq!(registry.position(&first), Some(0));
    assert_eq!(registry.position(&second), None);
    assert!(matches!(registry.register(&first), Ok(0)));
    assert!(registry.update_metric(&first, &values(&["RackA"]), &prometheus::core::Atomic::new(3.0)).is_ok());
    assert_eq!(
        text(&registry),
        "# HELP padm_thing A thing.\n# TYPE padm_thing gauge\npadm_thing{device=\"RackA\"} 3\n"
    );
}

#[test]
fn other_help_for_a_name_is_rejected() {
    let mut registry = MetricsRegistry::new();
    assert!(registry.register(&key("padm_thing", "A thing.", &["device"])).is_ok());
    assert!(matches!(
        registry.register(&key("padm_thing", "Another thing.", &["device"])),
        Err(RegistryError::Rejected(_))
    ));
    assert_eq!(registry.len(), 1);
}

#[test]
fn keys_are_kept_in_the_order_of_registration() {
    let mut registry = MetricsRegistry::new();
    let a = PADMMetric::Temperature.to_metric_key();
    let b = PADMMetric::FanSpeed.to_metric_key();
    let c = PADMMetric::DeviceUp.to_metric_key();
    assert!(matches!(registry.register(&a), Ok(0)));
    assert!(matches!(registry.register(&b), Ok(1)));
    assert!(matches!(registry.register(&a), Ok(0)));
    assert!(matches!(registry.register(&c), Ok(2)));
    assert_eq!(registry.len(), 3);
    assert_eq!(registry.position(&b), Some(1));
}

#[test]
fn every_catalog_key_registers() {
    let mut registry = MetricsRegistry::new();
    for label in [
        "Firmware Version",
        "Operating Mode",
        "LCD Display Units (Cooling)",
        "Dehumidifying Mode",
        "Water Fault",
        "Fan Speed - Auto",
        "Fan Speed",
        "Fan Always On",
        "Quiet Mode",
        "Set Point Temperature (C)",
        "Remote Temperature Sensor",
        "Return Air Temperature (C)",
        "Remote Set Point Temperature (C)",
        "Temperature (C)",
        "Temperature Supported",
        "Humidity Supported",
        "Contact Input Count",
        "Contact Output Count",
        "Temperature (C) Low Critical Threshold",
        "Temperature (C) High Critical Threshold",
        "Cooling Mode",
        "Fan Speed Setting",
        "Fault Conditions",
        "Device Up",
    ] {
        let metric = PADMMetric::from_label(label).unwrap();
        assert!(registry.register(&metric.to_metric_key()).is_ok());
    }
    assert_eq!(registry.len(), 24);
}

#[test]
fn invalid_descriptors_are_refused() {
    let mut registry = MetricsRegistry::new();
    for bad in [
        key("padm_thing", "", &["device"]),
        key("", "Help.", &["device"]),
        key("9lives", "Help.", &["device"]),
        key("padm-thing", "Help.", &["device"]),
        key("padm_thing", "Help.", &["device", "device"]),
        key("padm_thing", "Help.", &["de vice"]),
        key("padm_thing", "Help.", &["a:b"]),
        key("padm_thing", "Help.", &[""]),
        key("padm_thing", "Help.", &["1st"]),
    ] {
        assert!(matches!(registry.register(&bad), Err(RegistryError::InvalidDescriptor(_))));
    }
    assert_eq!(registry.len(), 0);
    assert!(registry.register(&key("a:b_9", "Help.", &["_x9", "Y"])).is_ok());
    assert!(registry.register(&key(":", "Help.", &[])).is_ok());
}

#[test]
fn update_writes_the_value_of_the_series() {
    let mut registry = MetricsRegistry::new();
    let temperature = PADMMetric::Temperature.to_metric_key();
    let speed = PADMMetric::FanSpeed.to_metric_key();
    assert!(registry
        .update_metric(&temperature, &values(&["RackA"]), &prometheus::core::Atomic::new(21.5))
        .is_ok());
    assert!(!registry.is_empty());
    assert!(registry
        .update_metric(&speed, &values(&["RackA", "low"]), &prometheus::core::Atomic::new(1.0))
        .is_ok());
    assert!(registry
        .update_metric(&speed, &values(&["RackA", "high"]), &prometheus::core::Atomic::new(0.0))
        .is_ok());
    assert!(registry
        .update_metric(&temperature, &values(&["RackA"]), &prometheus::core::Atomic::new(22.0))
        .is_ok());
    assert_eq!(
        text(&registry),
        "# HELP padm_fan_speed The current fan speed of the device.\n\
         # TYPE padm_fan_speed gauge\n\
         padm_fan_speed{device=\"RackA\",mode=\"high\"} 0\n\
         padm_fan_speed{device=\"RackA\",mode=\"low\"} 1\n\
         # HELP padm_temperature_celsius Ambient temperature currently reported by the device, in degrees Celsius.\n\
         # TYPE padm_temperature_celsius gauge\n\
         padm_temperature_celsius{device=\"RackA\"} 22\n"
    );
}

#[test]
fn wrong_number_of_label_values_is_refused() {
    let mut registry = MetricsRegistry::new();
    let speed = PADMMetric::FanSpeed.to_metric_key();
    let value = prometheus::core::Atomic::new(1.0);
    assert!(matches!(
        registry.update_metric(&speed, &values(&["RackA"]), &value),
        Err(RegistryError::Cardinality(_))
    ));
    assert!(matches!(
        registry.update_metric(&speed, &values(&["RackA", "low", "x"]), &value),
        Err(RegistryError::Cardinality(_))
    ));
    assert_eq!(registry.len(), 1);
    assert!(registry.is_empty());
    assert!(registry.update_metric(&speed, &values(&["RackA", "low"]), &value).is_ok());
    assert!(!registry.is_empty());
    assert_eq!(prometheus::core::Atomic::get(&value), 1.0);
}

#[test]
fn errors_carry_the_message_of_the_registry() {
    let mut registry = MetricsRegistry::new();
    let speed = PADMMetric::FanSpeed.to_metric_key();
    let value = prometheus::core::Atomic::new(1.0);
    match registry.update_metric(&speed, &values(&["RackA"]), &value) {
        Err(RegistryError::Cardinality(message)) => assert_eq!(
            message,
            "Inconsistent label cardinality, expect 2 label values, but got 1"
        ),
        other => panic!("no cardinality error: {:?}", other),
    }
    let mut other = speed.clone();
    other.labels = vec!["device".to_string()];
    match registry.register(&other) {
        Err(RegistryError::Rejected(message)) => {
            assert_eq!(message, "Duplicate metrics collector registration attempted")
        }
        other => panic!("not rejected: {:?}", other),
    }
    match registry.register(&key("padm_thing", "", &["device"])) {
        Err(RegistryError::InvalidDescriptor(message)) => {
            assert_eq!(message, "Error: empty help string")
        }
        other => panic!("not refused: {:?}", other),
    }
}

#[test]
fn registry_is_empty_when_nothing_is_gathered() {
    assert!(holds_no_family(&Vec::new()));
    assert!(!holds_no_family(&vec![prometheus::proto::MetricFamily::default()]));
}

#[test]
fn exposition_keeps_the_text_and_wraps_the_error() {
    assert!(matches!(exposition(Ok(vec![112, 97])), Ok(text) if text == vec![112, 97]));
    assert!(matches!(exposition(Ok(Vec::new())), Ok(text) if text.is_empty()));
    match exposition(Err(prometheus::Error::AlreadyReg)) {
        Err(RegistryError::Encoding(message)) => {
            assert_eq!(message, "Duplicate metrics collector registration attempted")
        }
        other => panic!("no encoding error: {:?}", other),
    }
    match exposition(Err(prometheus::Error::Msg("no metrics".to_string()))) {
        Err(RegistryError::Encoding(message)) => assert_eq!(message, "Error: no metrics"),
        other => panic!("no encoding error: {:?}", other),
    }
}
