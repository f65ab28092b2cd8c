//! The catalog of vendor variables and the gauge families they map to.
use vstd::prelude::*;
use vstd::string::StringExecFns;
use crate::metrics::key::{MetricKey, MetricKeyView};
use crate::metrics::registry::{key_is_valid, valid_label_name, valid_metric_name};

verus! {

/// A gauge family known to the exporter. Every variant but `DeviceUp` stands
/// for one vendor variable; `DeviceUp` is produced by the exporter itself for
/// each tracked device.
#[derive(Debug, Hash, PartialEq, Eq, Structural, Clone, Copy)]
pub enum PADMMetric {
    FirmwareVersion,
    OperatingMode,
    LcdDisplayUnits,
    DehumidifyingMode,
    WaterFault,
    AutomaticFanSpeedState,
    FanSpeed,
    FanAlwaysOn,
    QuietMode,
    SetPointTemperature,
    RemoteTemperatureSensorState,
    ReturnAirTemperature,
    RemoteSetPointTemperature,
    Temperature,
    TemperatureSupported,
    HumiditySupported,
    ContactInputCount,
    ContactOutputCount,
    TempLowCritThreshold,
    TempHighCritThreshold,
    CoolingMode,
    FanSpeedSetting,
    FaultConditions,
    DeviceUp,
}

/// The vendor labels that carry no metric and are passed over silently.
pub open spec fn ignored_label(label: Seq<char>) -> bool {
    ||| label == "LCD Display Details"@
    ||| label == "Hardware Configuration"@
    ||| label == "Temperature (C) Thresholds and Bounds"@
}

/// The metric that a vendor label stands for, if there is one. No two
/// metrics share a label, see [`lemma_vendor_labels_distinct`].
pub open spec fn metric_for(label: Seq<char>) -> Option<PADMMetric> {
    if exists|metric: PADMMetric| metric.vendor_label() == label {
        Some(choose|metric: PADMMetric| metric.vendor_label() == label)
    } else {
        None
    }
}

/// The prefix of every exported metric name.
pub open spec fn name_prefix() -> Seq<char> {
    "padm_"@
}

impl PADMMetric {
    /// The label under which the vendor reports this variable.
    pub open spec fn vendor_label(self) -> Seq<char> {
        match self {
            PADMMetric::FirmwareVersion => "Firmware Version"@,
            PADMMetric::OperatingMode => "Operating Mode"@,
            PADMMetric::LcdDisplayUnits => "LCD Display Units (Cooling)"@,
            PADMMetric::DehumidifyingMode => "Dehumidifying Mode"@,
            PADMMetric::WaterFault => "Water Fault"@,
            PADMMetric::AutomaticFanSpeedState => "Fan Speed - Auto"@,
            PADMMetric::FanSpeed => "Fan Speed"@,
            PADMMetric::FanAlwaysOn => "Fan Always On"@,
            PADMMetric::QuietMode => "Quiet Mode"@,
            PADMMetric::SetPointTemperature => "Set Point Temperature (C)"@,
            PADMMetric::RemoteTemperatureSensorState => "Remote Temperature Sensor"@,
            PADMMetric::ReturnAirTemperature => "Return Air Temperature (C)"@,
            PADMMetric::RemoteSetPointTemperature => "Remote Set Point Temperature (C)"@,
            PADMMetric::Temperature => "Temperature (C)"@,
            PADMMetric::TemperatureSupported => "Temperature Supported"@,
            PADMMetric::HumiditySupported => "Humidity Supported"@,
            PADMMetric::ContactInputCount => "Contact Input Count"@,
            PADMMetric::ContactOutputCount => "Contact Output Count"@,
            PADMMetric::TempLowCritThreshold => "Temperature (C) Low Critical Threshold"@,
            PADMMetric::TempHighCritThreshold => "Temperature (C) High Critical Threshold"@,
            PADMMetric::CoolingMode => "Cooling Mode"@,
            PADMMetric::FanSpeedSetting => "Fan Speed Setting"@,
            PADMMetric::FaultConditions => "Fault Conditions"@,
            PADMMetric::DeviceUp => "Device Up"@,
        }
    }

    /// The exported name, without the common prefix.
    pub open spec fn base_name(self) -> Seq<char> {
        match self {
            PADMMetric::FirmwareVersion => "firmware_version_info"@,
            PADMMetric::OperatingMode => "operating_mode"@,
            PADMMetric::LcdDisplayUnits => "lcd_display_units"@,
            PADMMetric::DehumidifyingMode => "dehumidifier_enabled"@,
            PADMMetric::WaterFault => "water_fault_active"@,
            PADMMetric::AutomaticFanSpeedState => "automatic_fan_speed_enabled"@,
            PADMMetric::FanSpeed => "fan_speed"@,
            PADMMetric::FanAlwaysOn => "fan_always_on_enabled"@,
            PADMMetric::QuietMode => "quiet_mode_enabled"@,
            PADMMetric::SetPointTemperature => "set_point_temperature_celsius"@,
            PADMMetric::RemoteTemperatureSensorState => "remote_temperature_sensor_enabled"@,
            PADMMetric::ReturnAirTemperature => "return_air_temperature_celsius"@,
            PADMMetric::RemoteSetPointTemperature => "remote_set_point_temperature_celsius"@,
            PADMMetric::Temperature => "temperature_celsius"@,
            PADMMetric::TemperatureSupported => "temperature_supported"@,
            PADMMetric::HumiditySupported => "humidity_supported"@,
            PADMMetric::ContactInputCount => "contact_input_count"@,
            PADMMetric::ContactOutputCount => "contact_output_count"@,
            PADMMetric::TempLowCritThreshold => "temp_low_crit_threshold"@,
            PADMMetric::TempHighCritThreshold => "temp_high_crit_threshold"@,
            PADMMetric::CoolingMode => "cooling_enabled"@,
            PADMMetric::FanSpeedSetting => "fan_speed_setting"@,
            PADMMetric::FaultConditions => "fault_conditions"@,
            PADMMetric::DeviceUp => "device_up"@,
        }
    }

    /// The help text of the family.
    pub open spec fn help_text(self) -> Seq<char> {
        match self {
            PADMMetric::FirmwareVersion => "Firmware version of the device."@,
            PADMMetric::OperatingMode => "Current mode of operation of the device."@,
            PADMMetric::LcdDisplayUnits => "Units displayed on the LCD screen of the device."@,
            PADMMetric::DehumidifyingMode => "Whether the dehumidifier is enabled on the device."@,
            PADMMetric::WaterFault => "Whether a water fault is present."@,
            PADMMetric::AutomaticFanSpeedState => "Whether automatic fan speed is enabled on the device."@,
            PADMMetric::FanSpeed => "The current fan speed of the device."@,
            PADMMetric::FanAlwaysOn => "Whether the fan always on setting is enabled on the device."@,
            PADMMetric::QuietMode => "Whether quiet mode is enabled on the device."@,
            PADMMetric::SetPointTemperature => "Set point temperature of the device, in degrees Celsius."@,
            PADMMetric::RemoteTemperatureSensorState => "Whether a remote temperature sensor is enabled on the device."@,
            PADMMetric::ReturnAirTemperature => "Return air temperature currently reported by the device, in degrees Celsius."@,
            PADMMetric::RemoteSetPointTemperature => "Set point temperature of the remote sensor of the device, in degrees Celsius."@,
            PADMMetric::Temperature => "Ambient temperature currently reported by the device, in degrees Celsius."@,
            PADMMetric::TemperatureSupported => "Whether the device supports temperature sensing."@,
            PADMMetric::HumiditySupported => "Whether the device supports humidity sensing."@,
            PADMMetric::ContactInputCount => "GPIO input contact counter of the device."@,
            PADMMetric::ContactOutputCount => "GPIO output contact counter of the device."@,
            PADMMetric::TempLowCritThreshold => "Critically low temperature threshold configured on the device."@,
            PADMMetric::TempHighCritThreshold => "Critically high temperature threshold configured on the device."@,
            PADMMetric::CoolingMode => "Whether the cooling mode is enabled on the device."@,
            PADMMetric::FanSpeedSetting => "The current fan speed setting of the device."@,
            PADMMetric::FaultConditions => "Whether the device is reporting any faults."@,
            PADMMetric::DeviceUp => "Whether the device is detected and enabled."@,
        }
    }

    /// Whether the family is exported as one boolean series per state.
    pub open spec fn is_enumerated(self) -> bool {
        match self {
            PADMMetric::OperatingMode | PADMMetric::LcdDisplayUnits | PADMMetric::FanSpeed | PADMMetric::FanSpeedSetting => true,
            _ => false,
        }
    }

    /// The name of the second label, for the families that have one. The
    /// first label of every family is `device`.
    pub open spec fn second_label(self) -> Option<Seq<char>> {
        if self == PADMMetric::FirmwareVersion {
            Some("version"@)
        } else if self.is_enumerated() {
            Some("mode"@)
        } else {
            None
        }
    }

    /// The label schema: `device`, then the second label if there is one.
    pub open spec fn label_names(self) -> Seq<Seq<char>> {
        match self.second_label() {
            Some(second) => seq!["device"@, second],
            None => seq!["device"@],
        }
    }

    /// The identity of the gauge family of this metric.
    pub open spec fn spec_key(self) -> MetricKeyView {
        MetricKeyView {
            name: name_prefix() + self.base_name(),
            help: self.help_text(),
            labels: self.label_names(),
            is_enum: self.is_enumerated(),
        }
    }

    fn base_name_str(&self) -> (r: &'static str)
        ensures
            r@ == self.base_name(),
    {
        match self {
            PADMMetric::FirmwareVersion => "firmware_version_info",
            PADMMetric::OperatingMode => "operating_mode",
            PADMMetric::LcdDisplayUnits => "lcd_display_units",
            PADMMetric::DehumidifyingMode => "dehumidifier_enabled",
            PADMMetric::WaterFault => "water_fault_active",
            PADMMetric::AutomaticFanSpeedState => "automatic_fan_speed_enabled",
            PADMMetric::FanSpeed => "fan_speed",
            PADMMetric::FanAlwaysOn => "fan_always_on_enabled",
            PADMMetric::QuietMode => "quiet_mode_enabled",
            PADMMetric::SetPointTemperature => "set_point_temperature_celsius",
            PADMMetric::RemoteTemperatureSensorState => "remote_temperature_sensor_enabled",
            PADMMetric::ReturnAirTemperature => "return_air_temperature_celsius",
            PADMMetric::RemoteSetPointTemperature => "remote_set_point_temperature_celsius",
            PADMMetric::Temperature => "temperature_celsius",
            PADMMetric::TemperatureSupported => "temperature_supported",
            PADMMetric::HumiditySupported => "humidity_supported",
            PADMMetric::ContactInputCount => "contact_input_count",
            PADMMetric::ContactOutputCount => "contact_output_count",
            PADMMetric::TempLowCritThreshold => "temp_low_crit_threshold",
            PADMMetric::TempHighCritThreshold => "temp_high_crit_threshold",
            PADMMetric::CoolingMode => "cooling_enabled",
            PADMMetric::FanSpeedSetting => "fan_speed_setting",
            PADMMetric::FaultConditions => "fault_conditions",
            PADMMetric::DeviceUp => "device_up",
        }
    }

    fn help_str(&self) -> (r: &'static str)
        ensures
            r@ == self.help_text(),
    {
        match self {
            PADMMetric::FirmwareVersion => "Firmware version of the device.",
            PADMMetric::OperatingMode => "Current mode of operation of the device.",
            PADMMetric::LcdDisplayUnits => "Units displayed on the LCD screen of the device.",
            PADMMetric::DehumidifyingMode => "Whether the dehumidifier is enabled on the device.",
            PADMMetric::WaterFault => "Whether a water fault is present.",
            PADMMetric::AutomaticFanSpeedState => "Whether automatic fan speed is enabled on the device.",
            PADMMetric::FanSpeed => "The current fan speed of the device.",
            PADMMetric::FanAlwaysOn => "Whether the fan always on setting is enabled on the device.",
            PADMMetric::QuietMode => "Whether quiet mode is enabled on the device.",
            PADMMetric::SetPointTemperature => "Set point temperature of the device, in degrees Celsius.",
            PADMMetric::RemoteTemperatureSensorState => "Whether a remote temperature sensor is enabled on the device.",
            PADMMetric::ReturnAirTemperature => "Return air temperature currently reported by the device, in degrees Celsius.",
            PADMMetric::RemoteSetPointTemperature => "Set point temperature of the remote sensor of the device, in degrees Celsius.",
            PADMMetric::Temperature => "Ambient temperature currently reported by the device, in degrees Celsius.",
            PADMMetric::TemperatureSupported => "Whether the device supports temperature sensing.",
            PADMMetric::HumiditySupported => "Whether the device supports humidity sensing.",
            PADMMetric::ContactInputCount => "GPIO input contact counter of the device.",
            PADMMetric::ContactOutputCount => "GPIO output contact counter of the device.",
            PADMMetric::TempLowCritThreshold => "Critically low temperature threshold configured on the device.",
            PADMMetric::TempHighCritThreshold => "Critically high temperature threshold configured on the device.",
            PADMMetric::CoolingMode => "Whether the cooling mode is enabled on the device.",
            PADMMetric::FanSpeedSetting => "The current fan speed setting of the device.",
            PADMMetric::FaultConditions => "Whether the device is reporting any faults.",
            PADMMetric::DeviceUp => "Whether the device is detected and enabled.",
        }
    }

    fn enumerated(&self) -> (r: bool)
        ensures
            r == self.is_enumerated(),
    {
        match self {
            PADMMetric::OperatingMode | PADMMetric::LcdDisplayUnits | PADMMetric::FanSpeed | PADMMetric::FanSpeedSetting => true,
            _ => false,
        }
    }

    /// Builds the identity of the gauge family of this metric.
    pub fn to_metric_key(&self) -> (key: MetricKey)
        ensures
            key@ == self.spec_key(),
    {
        let is_enum = self.enumerated();
        let mut name = String::from_str("padm_");
        name.append(self.base_name_str());
        let mut labels: Vec<String> = Vec::new();
        labels.push(String::from_str("device"));
        if let PADMMetric::FirmwareVersion = self {
            labels.push(String::from_str("version"));
        } else if is_enum {
            labels.push(String::from_str("mode"));
        }
        let key = MetricKey { name, help: String::from_str(self.help_str()), labels, is_enum };
        assert(key@.labels =~= self.label_names());
        key
    }

    /// Finds the metric that a vendor label stands for, if there is one.
    pub fn from_label(label: &str) -> (r: Option<PADMMetric>)
        ensures
            r == metric_for(label@),
            match r {
                Some(metric) => metric.vendor_label() == label@,
                None => forall|metric: PADMMetric| metric.vendor_label() != label@,
            },
    {
        let found = Self::lookup(label);
        proof {
            if let Some(metric) = found {
                lemma_vendor_labels_distinct(metric_for(label@).unwrap(), metric);
            }
        }
        found
    }

    fn lookup(label: &str) -> (r: Option<PADMMetric>)
        ensures
            match r {
                Some(metric) => metric.vendor_label() == label@,
                None => forall|metric: PADMMetric| metric.vendor_label() != label@,
            },
    {
        if label.eq("Firmware Version") {
            Some(PADMMetric::FirmwareVersion)
        } else if label.eq("Operating Mode") {
            Some(PADMMetric::OperatingMode)
        } else if label.eq("LCD Display Units (Cooling)") {
            Some(PADMMetric::LcdDisplayUnits)
        } else if label.eq("Dehumidifying Mode") {
            Some(PADMMetric::DehumidifyingMode)
        } else if label.eq("Water Fault") {
            Some(PADMMetric::WaterFault)
        } else if label.eq("Fan Speed - Auto") {
            Some(PADMMetric::AutomaticFanSpeedState)
        } else if label.eq("Fan Speed") {
            Some(PADMMetric::FanSpeed)
        } else if label.eq("Fan Always On") {
            Some(PADMMetric::FanAlwaysOn)
        } else if label.eq("Quiet Mode") {
            Some(PADMMetric::QuietMode)
        } else if label.eq("Set Point Temperature (C)") {
            Some(PADMMetric::SetPointTemperature)
        } else if label.eq("Remote Temperature Sensor") {
            Some(PADMMetric::RemoteTemperatureSensorState)
        } else if label.eq("Return Air Temperature (C)") {
            Some(PADMMetric::ReturnAirTemperature)
        } else if label.eq("Remote Set Point Temperature (C)") {
            Some(PADMMetric::RemoteSetPointTemperature)
        } else if label.eq("Temperature (C)") {
            Some(PADMMetric::Temperature)
        } else if label.eq("Temperature Supported") {
            Some(PADMMetric::TemperatureSupported)
        } else if label.eq("Humidity Supported") {
            Some(PADMMetric::HumiditySupported)
        } else if label.eq("Contact Input Count") {
            Some(PADMMetric::ContactInputCount)
        } else if label.eq("Contact Output Count") {
            Some(PADMMetric::ContactOutputCount)
        } else if label.eq("Temperature (C) Low Critical Threshold") {
            Some(PADMMetric::TempLowCritThreshold)
        } else if label.eq("Temperature (C) High Critical Threshold") {
            Some(PADMMetric::TempHighCritThreshold)
        } else if label.eq("Cooling Mode") {
            Some(PADMMetric::CoolingMode)
        } else if label.eq("Fan Speed Setting") {
            Some(PADMMetric::FanSpeedSetting)
        } else if label.eq("Fault Conditions") {
            Some(PADMMetric::FaultConditions)
        } else if label.eq("Device Up") {
            Some(PADMMetric::DeviceUp)
        } else {
            None
        }
    }

    /// Tells whether a vendor label is one of those that carry no metric.
    pub fn is_ignored(label: &str) -> (r: bool)
        ensures
            r == ignored_label(label@),
    {
        label.eq("LCD Display Details") || label.eq("Hardware Configuration") || label.eq(
            "Temperature (C) Thresholds and Bounds",
        )
    }
}

/// No two metrics share a vendor label, so a label stands for at most one
/// metric.
pub proof fn lemma_vendor_labels_distinct(a: PADMMetric, b: PADMMetric)
    requires
        a.vendor_label() == b.vendor_label(),
    ensures
        a == b,
{
    lemma_fingerprint(a);
    lemma_fingerprint(b);
}

/// A gauge family can be made from the key of every metric of the catalog:
/// its help text is not empty, its name is a valid metric name, and its
/// label names are valid and differ.
pub proof fn lemma_catalog_keys_are_valid(metric: PADMMetric)
    ensures
        key_is_valid(metric.spec_key()),
{
    reveal_strlit("padm_");
    reveal_strlit("device");
    reveal_strlit("mode");
    reveal_strlit("version");
    let key = metric.spec_key();
    match metric {
        PADMMetric::FirmwareVersion => {
            reveal_strlit("firmware_version_info");
            reveal_strlit("Firmware version of the device.");
        },
        PADMMetric::OperatingMode => {
            reveal_strlit("operating_mode");
            reveal_strlit("Current mode of operation of the device.");
        },
        PADMMetric::LcdDisplayUnits => {
            reveal_strlit("lcd_display_units");
            reveal_strlit("Units displayed on the LCD screen of the device.");
        },
        PADMMetric::DehumidifyingMode => {
            reveal_strlit("dehumidifier_enabled");
            reveal_strlit("Whether the dehumidifier is enabled on the device.");
        },
        PADMMetric::WaterFault => {
            reveal_strlit("water_fault_active");
            reveal_strlit("Whether a water fault is present.");
        },
        PADMMetric::AutomaticFanSpeedState => {
            reveal_strlit("automatic_fan_speed_enabled");
            reveal_strlit("Whether automatic fan speed is enabled on the device.");
        },
        PADMMetric::FanSpeed => {
            reveal_strlit("fan_speed");
            reveal_strlit("The current fan speed of the device.");
        },
        PADMMetric::FanAlwaysOn => {
            reveal_strlit("fan_always_on_enabled");
            reveal_strlit("Whether the fan always on setting is enabled on the device.");
        },
        PADMMetric::QuietMode => {
            reveal_strlit("quiet_mode_enabled");
            reveal_strlit("Whether quiet mode is enabled on the device.");
        },
        PADMMetric::SetPointTemperature => {
            reveal_strlit("set_point_temperature_celsius");
            reveal_strlit("Set point temperature of the device, in degrees Celsius.");
        },
        PADMMetric::RemoteTemperatureSensorState => {
            reveal_strlit("remote_temperature_sensor_enabled");
            reveal_strlit("Whether a remote temperature sensor is enabled on the device.");
        },
        PADMMetric::ReturnAirTemperature => {
            reveal_strlit("return_air_temperature_celsius");
            reveal_strlit("Return air temperature currently reported by the device, in degrees Celsius.");
        },
        PADMMetric::RemoteSetPointTemperature => {
            reveal_strlit("remote_set_point_temperature_celsius");
            reveal_strlit("Set point temperature of the remote sensor of the device, in degrees Celsius.");
        },
        PADMMetric::Temperature => {
            reveal_strlit("temperature_celsius");
            reveal_strlit("Ambient temperature currently reported by the device, in degrees Celsius.");
        },
        PADMMetric::TemperatureSupported => {
            reveal_strlit("temperature_supported");
            reveal_strlit("Whether the device supports temperature sensing.");
        },
        PADMMetric::HumiditySupported => {
            reveal_strlit("humidity_supported");
            reveal_strlit("Whether the device supports humidity sensing.");
        },
        PADMMetric::ContactInputCount => {
            reveal_strlit("contact_input_count");
            reveal_strlit("GPIO input contact counter of the device.");
        },
        PADMMetric::ContactOutputCount => {
            reveal_strlit("contact_output_count");
            reveal_strlit("GPIO output contact counter of the device.");
        },
        PADMMetric::TempLowCritThreshold => {
            reveal_strlit("temp_low_crit_threshold");
            reveal_strlit("Critically low temperature threshold configured on the device.");
        },
        PADMMetric::TempHighCritThreshold => {
            reveal_strlit("temp_high_crit_threshold");
            reveal_strlit("Critically high temperature threshold configured on the device.");
        },
        PADMMetric::CoolingMode => {
            reveal_strlit("cooling_enabled");
            reveal_strlit("Whether the cooling mode is enabled on the device.");
        },
        PADMMetric::FanSpeedSetting => {
            reveal_strlit("fan_speed_setting");
            reveal_strlit("The current fan speed setting of the device.");
        },
        PADMMetric::FaultConditions => {
            reveal_strlit("fault_conditions");
            reveal_strlit("Whether the device is reporting any faults.");
        },
        PADMMetric::DeviceUp => {
            reveal_strlit("device_up");
            reveal_strlit("Whether the device is detected and enabled.");
        },
    }
    assert(valid_metric_name(key.name));
    assert(valid_label_name("device"@));
    assert(valid_label_name("mode"@));
    assert(valid_label_name("version"@));
}

/// The length of a label with its first, middle and last character.
spec fn fingerprint(s: Seq<char>) -> (int, char, char, char) {
    (s.len() as int, s[0], s[s.len() as int / 2], s[s.len() - 1])
}

/// The fingerprint of each vendor label; no two are equal.
spec fn label_fingerprint(m: PADMMetric) -> (int, char, char, char) {
    match m {
        PADMMetric::FirmwareVersion => (16, 'F', ' ', 'n'),
        PADMMetric::OperatingMode => (14, 'O', 'n', 'e'),
        PADMMetric::LcdDisplayUnits => (27, 'L', 'n', ')'),
        PADMMetric::DehumidifyingMode => (18, 'D', 'y', 'e'),
        PADMMetric::WaterFault => (11, 'W', ' ', 't'),
        PADMMetric::AutomaticFanSpeedState => (16, 'F', 'd', 'o'),
        PADMMetric::FanSpeed => (9, 'F', 'S', 'd'),
        PADMMetric::FanAlwaysOn => (13, 'F', 'w', 'n'),
        PADMMetric::QuietMode => (10, 'Q', ' ', 'e'),
        PADMMetric::SetPointTemperature => (25, 'S', 'm', ')'),
        PADMMetric::RemoteTemperatureSensorState => (25, 'R', 'r', 'r'),
        PADMMetric::ReturnAirTemperature => (26, 'R', 'm', ')'),
        PADMMetric::RemoteSetPointTemperature => (32, 'R', ' ', ')'),
        PADMMetric::Temperature => (15, 'T', 't', ')'),
        PADMMetric::TemperatureSupported => (21, 'T', 'e', 'd'),
        PADMMetric::HumiditySupported => (18, 'H', 'S', 'd'),
        PADMMetric::ContactInputCount => (19, 'C', 'n', 't'),
        PADMMetric::ContactOutputCount => (20, 'C', 't', 't'),
        PADMMetric::TempLowCritThreshold => (38, 'T', ' ', 'd'),
        PADMMetric::TempHighCritThreshold => (39, 'T', 'h', 'd'),
        PADMMetric::CoolingMode => (12, 'C', 'g', 'e'),
        PADMMetric::FanSpeedSetting => (17, 'F', 'd', 'g'),
        PADMMetric::FaultConditions => (16, 'F', 'n', 's'),
        PADMMetric::DeviceUp => (9, 'D', 'c', 'p'),
    }
}

proof fn lemma_fingerprint(m: PADMMetric)
    ensures
        fingerprint(m.vendor_label()) == label_fingerprint(m),
{
    match m {
        PADMMetric::FirmwareVersion => {
            reveal_strlit("Firmware Version");
            assert(fingerprint(m.vendor_label()) == label_fingerprint(m));
        },
        PADMMetric::OperatingMode => {
            reveal_strlit("Operating Mode");
            assert(fingerprint(m.vendor_label()) == label_fingerprint(m));
        },
        PADMMetric::LcdDisplayUnits => {
            reveal_strlit("LCD Display Units (Cooling)");
            assert(fingerprint(m.vendor_label()) == label_fingerprint(m));
        },
        PADMMetric::DehumidifyingMode => {
            reveal_strlit("Dehumidifying Mode");
            assert(fingerprint(m.vendor_label()) == label_fingerprint(m));
        },
        PADMMetric::WaterFault => {
            reveal_strlit("Water Fault");
            assert(fingerprint(m.vendor_label()) == label_fingerprint(m));
        },
        PADMMetric::AutomaticFanSpeedState => {
            reveal_strlit("Fan Speed - Auto");
            assert(fingerprint(m.vendor_label()) == label_fingerprint(m));
        },
        PADMMetric::FanSpeed => {
            reveal_strlit("Fan Speed");
            assert(fingerprint(m.vendor_label()) == label_fingerprint(m));
        },
        PADMMetric::FanAlwaysOn => {
            reveal_strlit("Fan Always On");
            assert(fingerprint(m.vendor_label()) == label_fingerprint(m));
        },
        PADMMetric::QuietMode => {
            reveal_strlit("Quiet Mode");
            assert(fingerprint(m.vendor_label()) == label_fingerprint(m));
        },
        PADMMetric::SetPointTemperature => {
            reveal_strlit("Set Point Temperature (C)");
            assert(fingerprint(m.vendor_label()) == label_fingerprint(m));
        },
        PADMMetric::RemoteTemperatureSensorState => {
            reveal_strlit("Remote Temperature Sensor");
            assert(fingerprint(m.vendor_label()) == label_fingerprint(m));
        },
        PADMMetric::ReturnAirTemperature => {
            reveal_strlit("Return Air Temperature (C)");
            assert(fingerprint(m.vendor_label()) == label_fingerprint(m));
        },
        PADMMetric::RemoteSetPointTemperature => {
            reveal_strlit("Remote Set Point Temperature (C)");
            assert(fingerprint(m.vendor_label()) == label_fingerprint(m));
        },
        PADMMetric::Temperature => {
            reveal_strlit("Temperature (C)");
            assert(fingerprint(m.vendor_label()) == label_fingerprint(m));
        },
        PADMMetric::TemperatureSupported => {
            reveal_strlit("Temperature Supported");
            assert(fingerprint(m.vendor_label()) == label_fingerprint(m));
        },
        PADMMetric::HumiditySupported => {
            reveal_strlit("Humidity Supported");
            assert(fingerprint(m.vendor_label()) == label_fingerprint(m));
        },
        PADMMetric::ContactInputCount => {
            reveal_strlit("Contact Input Count");
            assert(fingerprint(m.vendor_label()) == label_fingerprint(m));
        },
        PADMMetric::ContactOutputCount => {
            reveal_strlit("Contact Output Count");
            assert(fingerprint(m.vendor_label()) == label_fingerprint(m));
        },
        PADMMetric::TempLowCritThreshold => {
            reveal_strlit("Temperature (C) Low Critical Threshold");
            assert(fingerprint(m.vendor_label()) == label_fingerprint(m));
        },
        PADMMetric::TempHighCritThreshold => {
            reveal_strlit("Temperature (C) High Critical Threshold");
            assert(fingerprint(m.vendor_label()) == label_fingerprint(m));
        },
        PADMMetric::CoolingMode => {
            reveal_strlit("Cooling Mode");
            assert(fingerprint(m.vendor_label()) == label_fingerprint(m));
        },
        PADMMetric::FanSpeedSetting => {
            reveal_strlit("Fan Speed Setting");
            assert(fingerprint(m.vendor_label()) == label_fingerprint(m));
        },
        PADMMetric::FaultConditions => {
            reveal_strlit("Fault Conditions");
            assert(fingerprint(m.vendor_label()) == label_fingerprint(m));
        },
        PADMMetric::DeviceUp => {
            reveal_strlit("Device Up");
            assert(fingerprint(m.vendor_label()) == label_fingerprint(m));
        },
    }
}

} // verus!
