//! Device variables in their rendered form: the name, the type and the help
//! text of the metric that a vendor label stands for, and the value of the
//! variable as a number.
use vstd::prelude::*;
use vstd::string::StringExecFns;

verus! {

/// The metric that a vendor label stands for: its name, its type and its
/// help text.
pub struct CatalogEntry {
    pub name: &'static str,
    pub vtype: &'static str,
    pub help: &'static str,
}

/// Mathematical value of a [`CatalogEntry`].
pub struct CatalogEntryView {
    pub name: Seq<char>,
    pub vtype: Seq<char>,
    pub help: Seq<char>,
}

impl View for CatalogEntry {
    type V = CatalogEntryView;

    open spec fn view(&self) -> CatalogEntryView {
        CatalogEntryView { name: self.name@, vtype: self.vtype@, help: self.help@ }
    }
}

/// The catalog: what each known vendor label stands for.
pub open spec fn catalog(label: Seq<char>) -> Option<CatalogEntryView> {
    if label == "Firmware Version"@ {
        Some(CatalogEntryView { name: "firmware_version"@, vtype: "gauge"@, help: "Device firmware version."@ })
    } else if label == "Operating Mode"@ {
        Some(CatalogEntryView { name: "operating_mode"@, vtype: "gauge"@, help: "Device operating mode."@ })
    } else if label == "LCD Display Units (Cooling)"@ {
        Some(CatalogEntryView { name: "lcd_display_units"@, vtype: "gauge"@, help: "Units displayed on the LCD screen."@ })
    } else if label == "Dehumidifying Mode"@ {
        Some(CatalogEntryView { name: "dehumidifying_mode"@, vtype: "gauge"@, help: "Device dehumidifying mode."@ })
    } else if label == "Water Fault"@ {
        Some(CatalogEntryView { name: "water_fault"@, vtype: "gauge"@, help: "Device water fault status."@ })
    } else if label == "Fan Speed - Auto"@ {
        Some(CatalogEntryView { name: "automatic_fan_speed_state"@, vtype: "gauge"@, help: "Device automatic fan speed status."@ })
    } else if label == "Fan Speed"@ {
        Some(CatalogEntryView { name: "fan_speed"@, vtype: "gauge"@, help: "Device fan speed setting."@ })
    } else if label == "Fan Always On"@ {
        Some(CatalogEntryView { name: "fan_always_on"@, vtype: "gauge"@, help: "Device fan always on setting."@ })
    } else if label == "Quiet Mode"@ {
        Some(CatalogEntryView { name: "quiet_mode"@, vtype: "gauge"@, help: "Device quiet mode setting."@ })
    } else if label == "Set Point Temperature (C)"@ {
        Some(CatalogEntryView { name: "set_point_temperature"@, vtype: "gauge"@, help: "Set point temperature in celsius."@ })
    } else if label == "Remote Temperature Sensor"@ {
        Some(CatalogEntryView { name: "remote_temperature_sensor_state"@, vtype: "gauge"@, help: "Remote temperature sensor state."@ })
    } else if label == "Return Air Temperature (C)"@ {
        Some(CatalogEntryView { name: "return_air_temperature"@, vtype: "gauge"@, help: "Temperature of the return air in celsius."@ })
    } else if label == "Remote Set Point Temperature (C)"@ {
        Some(CatalogEntryView { name: "remote_set_point_temperature"@, vtype: "gauge"@, help: "Set point temperature of the remote sensor."@ })
    } else if label == "Temperature (C)"@ {
        Some(CatalogEntryView { name: "temperature"@, vtype: "gauge"@, help: "Current detected temperature."@ })
    } else if label == "Temperature Supported"@ {
        Some(CatalogEntryView { name: "temperature_supported"@, vtype: "gauge"@, help: "Whether the device supports temperature sensing."@ })
    } else if label == "Humidity Supported"@ {
        Some(CatalogEntryView { name: "humidity_supported"@, vtype: "gauge"@, help: "Whether the device supports humidity sensing."@ })
    } else if label == "Contact Input Count"@ {
        Some(CatalogEntryView { name: "contact_input_count"@, vtype: "counter"@, help: "GPIO input contact counter."@ })
    } else if label == "Contact Output Count"@ {
        Some(CatalogEntryView { name: "contact_output_count"@, vtype: "counter"@, help: "GPIO output contact counter."@ })
    } else if label == "Temperature (C) Low Critical Threshold"@ {
        Some(CatalogEntryView { name: "temp_low_crit_threshold"@, vtype: "gauge"@, help: "Critically low temperature."@ })
    } else if label == "Temperature (C) High Critical Threshold"@ {
        Some(CatalogEntryView { name: "temp_high_crit_threshold"@, vtype: "gauge"@, help: "Critically high temperature."@ })
    } else {
        None
    }
}

/// Looks a vendor label up in the catalog.
pub fn lookup(label: &str) -> (r: Option<CatalogEntry>)
    ensures
        match r {
            Some(entry) => catalog(label@) == Some(entry@),
            None => catalog(label@) is None,
        },
{
    if label.eq("Firmware Version") {
        Some(CatalogEntry { name: "firmware_version", vtype: "gauge", help: "Device firmware version." })
    } else if label.eq("Operating Mode") {
        Some(CatalogEntry { name: "operating_mode", vtype: "gauge", help: "Device operating mode." })
    } else if label.eq("LCD Display Units (Cooling)") {
        Some(CatalogEntry { name: "lcd_display_units", vtype: "gauge", help: "Units displayed on the LCD screen." })
    } else if label.eq("Dehumidifying Mode") {
        Some(CatalogEntry { name: "dehumidifying_mode", vtype: "gauge", help: "Device dehumidifying mode." })
    } else if label.eq("Water Fault") {
        Some(CatalogEntry { name: "water_fault", vtype: "gauge", help: "Device water fault status." })
    } else if label.eq("Fan Speed - Auto") {
        Some(CatalogEntry { name: "automatic_fan_speed_state", vtype: "gauge", help: "Device automatic fan speed status." })
    } else if label.eq("Fan Speed") {
        Some(CatalogEntry { name: "fan_speed", vtype: "gauge", help: "Device fan speed setting." })
    } else if label.eq("Fan Always On") {
        Some(CatalogEntry { name: "fan_always_on", vtype: "gauge", help: "Device fan always on setting." })
    } else if label.eq("Quiet Mode") {
        Some(CatalogEntry { name: "quiet_mode", vtype: "gauge", help: "Device quiet mode setting." })
    } else if label.eq("Set Point Temperature (C)") {
        Some(CatalogEntry { name: "set_point_temperature", vtype: "gauge", help: "Set point temperature in celsius." })
    } else if label.eq("Remote Temperature Sensor") {
        Some(CatalogEntry { name: "remote_temperature_sensor_state", vtype: "gauge", help: "Remote temperature sensor state." })
    } else if label.eq("Return Air Temperature (C)") {
        Some(CatalogEntry { name: "return_air_temperature", vtype: "gauge", help: "Temperature of the return air in celsius." })
    } else if label.eq("Remote Set Point Temperature (C)") {
        Some(CatalogEntry { name: "remote_set_point_temperature", vtype: "gauge", help: "Set point temperature of the remote sensor." })
    } else if label.eq("Temperature (C)") {
        Some(CatalogEntry { name: "temperature", vtype: "gauge", help: "Current detected temperature." })
    } else if label.eq("Temperature Supported") {
        Some(CatalogEntry { name: "temperature_supported", vtype: "gauge", help: "Whether the device supports temperature sensing." })
    } else if label.eq("Humidity Supported") {
        Some(CatalogEntry { name: "humidity_supported", vtype: "gauge", help: "Whether the device supports humidity sensing." })
    } else if label.eq("Contact Input Count") {
        Some(CatalogEntry { name: "contact_input_count", vtype: "counter", help: "GPIO input contact counter." })
    } else if label.eq("Contact Output Count") {
        Some(CatalogEntry { name: "contact_output_count", vtype: "counter", help: "GPIO output contact counter." })
    } else if label.eq("Temperature (C) Low Critical Threshold") {
        Some(CatalogEntry { name: "temp_low_crit_threshold", vtype: "gauge", help: "Critically low temperature." })
    } else if label.eq("Temperature (C) High Critical Threshold") {
        Some(CatalogEntry { name: "temp_high_crit_threshold", vtype: "gauge", help: "Critically high temperature." })
    } else {
        None
    }
}

/// The name of the label that carries the textual value of a state
/// variable, for the variables that have one.
pub open spec fn state_label(name: Seq<char>) -> Option<Seq<char>> {
    if name == "firmware_version"@ {
        Some("version"@)
    } else if name == "operating_mode"@ {
        Some("mode"@)
    } else if name == "lcd_display_units"@ {
        Some("units"@)
    } else if name == "dehumidifying_mode"@ {
        Some("state"@)
    } else if name == "water_fault"@ {
        Some("fault"@)
    } else if name == "automatic_fan_speed_state"@ {
        Some("state"@)
    } else if name == "fan_speed"@ {
        Some("speed"@)
    } else if name == "fan_always_on"@ {
        Some("enabled"@)
    } else if name == "quiet_mode"@ {
        Some("state"@)
    } else if name == "remote_temperature_sensor_state"@ {
        Some("state"@)
    } else if name == "temperature_supported"@ {
        Some("supported"@)
    } else if name == "humidity_supported"@ {
        Some("supported"@)
    } else {
        None
    }
}

/// The number that stands for the textual value of a variable. The firmware
/// version is always one; a state variable has a number for each of its
/// states and one for every other text; any other variable keeps its value.
pub open spec fn numeric_value(name: Seq<char>, value: Seq<char>) -> Seq<char> {
    if name == "firmware_version"@ {
        "1"@
    } else if name == "operating_mode"@ {
        if value == "Off"@ {
            "0"@
        } else if value == "Idle"@ {
            "1"@
        } else if value == "Cooling"@ {
            "2"@
        } else if value == "Dehumidifying"@ {
            "4"@
        } else if value == "Defrosting"@ {
            "5"@
        } else if value == "Not Connected"@ {
            "6"@
        } else {
            "6"@
        }
    } else if name == "lcd_display_units"@ {
        if value == "Metric"@ {
            "0"@
        } else if value == "English"@ {
            "1"@
        } else {
            "1"@
        }
    } else if name == "dehumidifying_mode"@ {
        if value == "Off"@ {
            "0"@
        } else if value == "On"@ {
            "1"@
        } else {
            "1"@
        }
    } else if name == "water_fault"@ {
        if value == "Not Full"@ {
            "0"@
        } else if value == "Full"@ {
            "1"@
        } else {
            "1"@
        }
    } else if name == "automatic_fan_speed_state"@ {
        if value == "Off"@ {
            "0"@
        } else if value == "On"@ {
            "1"@
        } else {
            "1"@
        }
    } else if name == "fan_speed"@ {
        if value == "Low"@ {
            "1"@
        } else if value == "Medium"@ {
            "3"@
        } else if value == "High"@ {
            "5"@
        } else if value == "Auto"@ {
            "6"@
        } else if value == "Off"@ {
            "10"@
        } else if value == "Low (Auto)"@ {
            "11"@
        } else if value == "Medium Low (Auto)"@ {
            "12"@
        } else if value == "Medium (Auto)"@ {
            "13"@
        } else if value == "Medium High (Auto)"@ {
            "14"@
        } else if value == "High (Auto)"@ {
            "15"@
        } else {
            "6"@
        }
    } else if name == "fan_always_on"@ {
        if value == "No"@ {
            "0"@
        } else if value == "Yes"@ {
            "1"@
        } else {
            "1"@
        }
    } else if name == "quiet_mode"@ {
        if value == "Disabled"@ {
            "0"@
        } else if value == "Enabled"@ {
            "1"@
        } else {
            "1"@
        }
    } else if name == "remote_temperature_sensor_state"@ {
        if value == "Disabled"@ {
            "0"@
        } else if value == "Enabled"@ {
            "1"@
        } else {
            "1"@
        }
    } else if name == "temperature_supported"@ {
        if value == "Yes"@ {
            "1"@
        } else if value == "No"@ {
            "2"@
        } else {
            "1"@
        }
    } else if name == "humidity_supported"@ {
        if value == "Yes"@ {
            "1"@
        } else if value == "No"@ {
            "2"@
        } else {
            "1"@
        }
    } else {
        value
    }
}

/// The labels of a variable: the textual value under the state label, for
/// the variables that have one.
pub open spec fn state_labels(name: Seq<char>, value: Seq<char>) -> Option<
    Seq<(Seq<char>, Seq<char>)>,
> {
    match state_label(name) {
        Some(label) => Some(seq![(label, value)]),
        None => None,
    }
}

/// No name occurs twice among the labels.
pub open spec fn distinct_label_names(labels: Seq<(Seq<char>, Seq<char>)>) -> bool {
    forall|i: int, j: int| 0 <= i < j < labels.len() ==> labels[i].0 != labels[j].0
}

/// The mathematical values of a list of labels.
pub open spec fn label_views(labels: Seq<(String, String)>) -> Seq<(Seq<char>, Seq<char>)> {
    Seq::new(labels.len(), |i: int| (labels[i].0@, labels[i].1@))
}

/// The mathematical value of labels that may be absent.
pub open spec fn optional_label_views(labels: Option<Vec<(String, String)>>) -> Option<
    Seq<(Seq<char>, Seq<char>)>,
> {
    match labels {
        Some(labels) => Some(label_views(labels@)),
        None => None,
    }
}

fn one_label(label: &str, value: &str) -> (r: Option<Vec<(String, String)>>)
    ensures
        optional_label_views(r) == Some(seq![(label@, value@)]),
{
    let mut labels: Vec<(String, String)> = Vec::new();
    labels.push((String::from_str(label), String::from_str(value)));
    assert(label_views(labels@) =~= seq![(label@, value@)]);
    Some(labels)
}

/// Gives the value of a variable as a number, and its labels: see
/// [`numeric_value`] and [`state_labels`].
pub fn mutate_variable<'a>(name: &'a str, value: &'a str) -> (r: (
    &'a str,
    Option<Vec<(String, String)>>,
))
    ensures
        r.0@ == numeric_value(name@, value@),
        optional_label_views(r.1) == state_labels(name@, value@),
        r.1 is Some ==> distinct_label_names(label_views(r.1->Some_0@)),
{
    if name.eq("firmware_version") {
        ("1", one_label("version", value))
    } else if name.eq("operating_mode") {
        let number = 
        if value.eq("Off") {
            "0"
        } else if value.eq("Idle") {
            "1"
        } else if value.eq("Cooling") {
            "2"
        } else if value.eq("Dehumidifying") {
            "4"
        } else if value.eq("Defrosting") {
            "5"
        } else if value.eq("Not Connected") {
            "6"
        } else {
            "6"
        };
        (number, one_label("mode", value))
    } else if name.eq("lcd_display_units") {
        let number = 
        if value.eq("Metric") {
            "0"
        } else if value.eq("English") {
            "1"
        } else {
            "1"
        };
        (number, one_label("units", value))
    } else if name.eq("dehumidifying_mode") {
        let number = 
        if value.eq("Off") {
            "0"
        } else if value.eq("On") {
            "1"
        } else {
            "1"
        };
        (number, one_label("state", value))
    } else if name.eq("water_fault") {
        let number = 
        if value.eq("Not Full") {
            "0"
        } else if value.eq("Full") {
            "1"
        } else {
            "1"
        };
        (number, one_label("fault", value))
    } else if name.eq("automatic_fan_speed_state") {
        let number = 
        if value.eq("Off") {
            "0"
        } else if value.eq("On") {
            "1"
        } else {
            "1"
        };
        (number, one_label("state", value))
    } else if name.eq("fan_speed") {
        let number = 
        if value.eq("Low") {
            "1"
        } else if value.eq("Medium") {
            "3"
        } else if value.eq("High") {
            "5"
        } else if value.eq("Auto") {
            "6"
        } else if value.eq("Off") {
            "10"
        } else if value.eq("Low (Auto)") {
            "11"
        } else if value.eq("Medium Low (Auto)") {
            "12"
        } else if value.eq("Medium (Auto)") {
            "13"
        } else if value.eq("Medium High (Auto)") {
            "14"
        } else if value.eq("High (Auto)") {
            "15"
        } else {
            "6"
        };
        (number, one_label("speed", value))
    } else if name.eq("fan_always_on") {
        let number = 
        if value.eq("No") {
            "0"
        } else if value.eq("Yes") {
            "1"
        } else {
            "1"
        };
        (number, one_label("enabled", value))
    } else if name.eq("quiet_mode") {
        let number = 
        if value.eq("Disabled") {
            "0"
        } else if value.eq("Enabled") {
            "1"
        } else {
            "1"
        };
        (number, one_label("state", value))
    } else if name.eq("remote_temperature_sensor_state") {
        let number = 
        if value.eq("Disabled") {
            "0"
        } else if value.eq("Enabled") {
            "1"
        } else {
            "1"
        };
        (number, one_label("state", value))
    } else if name.eq("temperature_supported") {
        let number = 
        if value.eq("Yes") {
            "1"
        } else if value.eq("No") {
            "2"
        } else {
            "1"
        };
        (number, one_label("supported", value))
    } else if name.eq("humidity_supported") {
        let number = 
        if value.eq("Yes") {
            "1"
        } else if value.eq("No") {
            "2"
        } else {
            "1"
        };
        (number, one_label("supported", value))
    } else {
        (value, None)
    }
}

/// A variable of a device in its rendered form.
#[derive(Debug)]
pub struct Variable {
    name: String,
    vtype: String,
    help: String,
    value: String,
    labels: Option<Vec<(String, String)>>,
}

/// Mathematical value of a [`Variable`].
pub struct VariableView {
    pub name: Seq<char>,
    pub vtype: Seq<char>,
    pub help: Seq<char>,
    pub value: Seq<char>,
    pub labels: Option<Seq<(Seq<char>, Seq<char>)>>,
}

impl VariableView {
    /// The labels of the variable are a mapping: no name occurs twice.
    pub open spec fn wf(self) -> bool {
        match self.labels {
            Some(labels) => distinct_label_names(labels),
            None => true,
        }
    }

    /// The field of the given name; the empty text for any other name.
    pub open spec fn get(self, field: Seq<char>) -> Seq<char> {
        if field == "name"@ {
            self.name
        } else if field == "type"@ {
            self.vtype
        } else if field == "help"@ {
            self.help
        } else if field == "value"@ {
            self.value
        } else {
            Seq::empty()
        }
    }
}

impl View for Variable {
    type V = VariableView;

    closed spec fn view(&self) -> VariableView {
        VariableView {
            name: self.name@,
            vtype: self.vtype@,
            help: self.help@,
            value: self.value@,
            labels: optional_label_views(self.labels),
        }
    }
}

/// Copies a list of labels.
pub fn clone_labels(labels: &Vec<(String, String)>) -> (r: Vec<(String, String)>)
    ensures
        label_views(r@) == label_views(labels@),
{
    let mut out: Vec<(String, String)> = Vec::new();
    let mut i: usize = 0;
    while i < labels.len()
        invariant
            i <= labels.len(),
            out.len() == i,
            forall|j: int|
                0 <= j < i ==> out@[j].0@ == labels@[j].0@ && out@[j].1@ == labels@[j].1@,
        decreases labels.len() - i,
    {
        out.push((labels[i].0.clone(), labels[i].1.clone()));
        i += 1;
    }
    assert(label_views(out@) =~= label_views(labels@));
    out
}

impl Clone for Variable {
    fn clone(&self) -> (r: Self)
        ensures
            r@ == self@,
    {
        Variable {
            name: self.name.clone(),
            vtype: self.vtype.clone(),
            help: self.help.clone(),
            value: self.value.clone(),
            labels: match &self.labels {
                Some(labels) => Some(clone_labels(labels)),
                None => None,
            },
        }
    }
}

impl Variable {
    /// A variable with the given fields. The labels are taken as they are:
    /// it is for the caller to give no name twice.
    pub fn new(
        name: String,
        vtype: String,
        help: String,
        value: String,
        labels: Option<Vec<(String, String)>>,
    ) -> (variable: Variable)
        ensures
            variable@ == (VariableView {
                name: name@,
                vtype: vtype@,
                help: help@,
                value: value@,
                labels: optional_label_views(labels),
            }),
    {
        Variable { name, vtype, help, value, labels }
    }

    /// The field of the given name: `name`, `type`, `help` or `value`. Any
    /// other name gives the empty text.
    pub fn get(&self, field: &str) -> (r: &str)
        ensures
            r@ == self@.get(field@),
    {
        if field.eq("name") {
            self.name.as_str()
        } else if field.eq("type") {
            self.vtype.as_str()
        } else if field.eq("help") {
            self.help.as_str()
        } else if field.eq("value") {
            self.value.as_str()
        } else {
            proof {
                reveal_strlit("");
            }
            ""
        }
    }

    /// The name of the metric.
    pub fn name(&self) -> (r: &str)
        ensures
            r@ == self@.name,
    {
        self.name.as_str()
    }

    /// The type of the metric.
    pub fn vtype(&self) -> (r: &str)
        ensures
            r@ == self@.vtype,
    {
        self.vtype.as_str()
    }

    /// The help text of the metric.
    pub fn help(&self) -> (r: &str)
        ensures
            r@ == self@.help,
    {
        self.help.as_str()
    }

    /// The value of the variable.
    pub fn value(&self) -> (r: &str)
        ensures
            r@ == self@.value,
    {
        self.value.as_str()
    }

    /// The labels of the variable.
    pub fn labels(&self) -> (r: &Option<Vec<(String, String)>>)
        ensures
            optional_label_views(*r) == self@.labels,
    {
        &self.labels
    }
}

/// Tells whether a vendor label is in the catalog.
pub fn is_metric(label: &str) -> (r: bool)
    ensures
        r == catalog(label@) is Some,
{
    lookup(label).is_some()
}

/// What a reported variable is rendered as. A label that is not in the
/// catalog gives a variable without name, type and help text that keeps its
/// value.
pub open spec fn unpacked(label: Seq<char>, value: Seq<char>) -> VariableView {
    let entry = match catalog(label) {
        Some(entry) => entry,
        None => CatalogEntryView { name: Seq::empty(), vtype: Seq::empty(), help: Seq::empty() },
    };
    VariableView {
        name: entry.name,
        vtype: entry.vtype,
        help: entry.help,
        value: numeric_value(entry.name, value),
        labels: state_labels(entry.name, value),
    }
}

/// Renders a reported variable, given its vendor label and its textual
/// value.
pub fn unpack_variable(label: &str, value: &str) -> (variable: Variable)
    ensures
        variable@ == unpacked(label@, value@),
        variable@.wf(),
{
    proof {
        reveal_strlit("");
        assert(""@ =~= Seq::<char>::empty());
    }
    let entry = match lookup(label) {
        Some(entry) => entry,
        None => CatalogEntry { name: "", vtype: "", help: "" },
    };
    let (number, labels) = mutate_variable(entry.name, value);
    Variable {
        name: String::from_str(entry.name),
        vtype: String::from_str(entry.vtype),
        help: String::from_str(entry.help),
        value: String::from_str(number),
        labels,
    }
}

} // verus!
