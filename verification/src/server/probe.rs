//! The plain text that the variables of all devices are served as.
//!
//! The variables are grouped into families by the name of their metric, in
//! the order in which the names first occur. Every family is written as a
//! `# HELP` line and a `# TYPE` line, followed by one line for each of its
//! samples.
use vstd::prelude::*;
use vstd::string::StringExecFns;
use crate::device::schema::{device_views, Device, DeviceView};
use crate::device::variables::{clone_labels, label_views, VariableView};

verus! {

struct DeviceMetric {
    device: String,
    value: String,
    labels: Vec<(String, String)>,
}

struct Metric {
    name: String,
    mtype: String,
    help: String,
    metrics: Vec<DeviceMetric>,
}

/// One sample: the value of a variable of a device, with its labels.
pub struct SampleView {
    pub device: Seq<char>,
    pub value: Seq<char>,
    pub labels: Seq<(Seq<char>, Seq<char>)>,
}

/// A family: the samples of all variables that bear one metric name, with
/// the type and the help text of the first of them.
pub struct FamilyView {
    pub name: Seq<char>,
    pub mtype: Seq<char>,
    pub help: Seq<char>,
    pub samples: Seq<SampleView>,
}

impl View for DeviceMetric {
    type V = SampleView;

    closed spec fn view(&self) -> SampleView {
        SampleView { device: self.device@, value: self.value@, labels: label_views(self.labels@) }
    }
}

impl View for Metric {
    type V = FamilyView;

    closed spec fn view(&self) -> FamilyView {
        FamilyView {
            name: self.name@,
            mtype: self.mtype@,
            help: self.help@,
            samples: Seq::new(self.metrics@.len(), |i: int| self.metrics@[i]@),
        }
    }
}

/// The sample that a variable of a device gives.
pub open spec fn sample_of(device: Seq<char>, variable: VariableView) -> SampleView {
    SampleView {
        device,
        value: variable.value,
        labels: match variable.labels {
            Some(labels) => labels,
            None => Seq::empty(),
        },
    }
}

/// The place of the family with the given name.
pub open spec fn family_place(families: Seq<FamilyView>, name: Seq<char>) -> Option<int>
    decreases families.len(),
{
    if families.len() == 0 {
        None
    } else if families[0].name == name {
        Some(0)
    } else {
        match family_place(families.skip(1), name) {
            Some(place) => Some(place + 1),
            None => None,
        }
    }
}

/// The families after one more variable of a device: its sample joins the
/// first family that bears the name of its metric; where there is none, a
/// new family is added at the end with the type and the help text of the
/// variable.
pub open spec fn with_variable(
    families: Seq<FamilyView>,
    device: Seq<char>,
    variable: VariableView,
) -> Seq<FamilyView> {
    let sample = sample_of(device, variable);
    match family_place(families, variable.name) {
        Some(place) => families.update(
            place,
            FamilyView { samples: families[place].samples.push(sample), ..families[place] },
        ),
        None => families.push(
            FamilyView {
                name: variable.name,
                mtype: variable.vtype,
                help: variable.help,
                samples: seq![sample],
            },
        ),
    }
}

/// The families after the first `count` variables of a device.
pub open spec fn with_variables(families: Seq<FamilyView>, device: DeviceView, count: nat) -> Seq<
    FamilyView,
>
    decreases count,
{
    if count == 0 || count > device.variables.len() {
        families
    } else {
        with_variable(
            with_variables(families, device, (count - 1) as nat),
            device.name,
            device.variables[count - 1],
        )
    }
}

/// The families of a list of devices: the devices are taken in their order
/// and the variables of each in theirs.
pub open spec fn families_of(devices: Seq<DeviceView>) -> Seq<FamilyView>
    decreases devices.len(),
{
    if devices.len() == 0 {
        Seq::empty()
    } else {
        with_variables(
            families_of(devices.drop_last()),
            devices.last(),
            devices.last().variables.len(),
        )
    }
}

/// The labels of a sample as they follow the device label: each with a
/// comma before it and its value in quotes.
pub open spec fn labels_text(labels: Seq<(Seq<char>, Seq<char>)>) -> Seq<char>
    decreases labels.len(),
{
    if labels.len() == 0 {
        Seq::empty()
    } else {
        labels_text(labels.drop_last()) + seq![','] + labels.last().0 + "=\""@ + labels.last().1
            + "\""@
    }
}

/// The line of one sample: the metric name with its prefix, the labels in
/// braces with the device label first, a space and the value.
pub open spec fn sample_text(name: Seq<char>, sample: SampleView) -> Seq<char> {
    "padm_"@ + name + "{device=\""@ + sample.device + "\""@ + labels_text(sample.labels) + "} "@
        + sample.value + "\n"@
}

/// The lines of the first `count` samples of a family.
pub open spec fn samples_text(family: FamilyView, count: nat) -> Seq<char>
    decreases count,
{
    if count == 0 || count > family.samples.len() {
        Seq::empty()
    } else {
        samples_text(family, (count - 1) as nat) + sample_text(
            family.name,
            family.samples[count - 1],
        )
    }
}

/// The two header lines of a family.
pub open spec fn header_text(family: FamilyView) -> Seq<char> {
    "# HELP "@ + family.name + " "@ + family.help + "\n"@ + "# TYPE "@ + family.name + " "@
        + family.mtype + "\n"@
}

/// The text of a family: its header and the lines of its samples.
pub open spec fn family_text(family: FamilyView) -> Seq<char> {
    header_text(family) + samples_text(family, family.samples.len())
}

/// The text of a list of families, one after the other.
pub open spec fn families_text(families: Seq<FamilyView>) -> Seq<char>
    decreases families.len(),
{
    if families.len() == 0 {
        Seq::empty()
    } else {
        families_text(families.drop_last()) + family_text(families.last())
    }
}

/// The text that a list of devices is served as.
pub open spec fn output_of(devices: Seq<DeviceView>) -> Seq<char> {
    families_text(families_of(devices))
}

spec fn metric_views(metrics: Seq<Metric>) -> Seq<FamilyView> {
    Seq::new(metrics.len(), |i: int| metrics[i]@)
}

fn find_family(metrics: &Vec<Metric>, name: &str) -> (r: Option<usize>)
    ensures
        match r {
            Some(place) => family_place(metric_views(metrics@), name@) == Some(place as int)
                && place < metrics@.len(),
            None => family_place(metric_views(metrics@), name@) is None,
        },
{
    let ghost all = metric_views(metrics@);
    let mut i: usize = 0;
    assert(all.skip(0) =~= all);
    while i < metrics.len()
        invariant
            i <= metrics.len(),
            all == metric_views(metrics@),
            family_place(all, name@) == match family_place(all.skip(i as int), name@) {
                Some(place) => Some(place + i),
                None => None,
            },
        decreases metrics.len() - i,
    {
        proof {
            assert(all.skip(i as int)[0] == all[i as int]);
            assert(all.skip(i as int).skip(1) =~= all.skip(i + 1));
        }
        if metrics[i].name.as_str().eq(name) {
            return Some(i);
        }
        i += 1;
    }
    None
}

fn add_variable(metrics: &mut Vec<Metric>, device: &Device, index: usize)
    requires
        index < device.variables@.len(),
    ensures
        metric_views(final(metrics)@) == with_variable(
            metric_views(old(metrics)@),
            device@.name,
            device@.variables[index as int],
        ),
{
    let variable = &device.variables[index];
    let ghost before = metric_views(metrics@);
    let ghost sample = sample_of(device@.name, variable@);
    let labels = match variable.labels() {
        Some(labels) => clone_labels(labels),
        None => Vec::new(),
    };
    proof {
        assert(label_views(labels@) =~= sample.labels);
    }
    let device_metric = DeviceMetric {
        device: device.name.clone(),
        value: String::from_str(variable.value()),
        labels,
    };
    proof {
        assert(device_metric@ == sample);
    }
    match find_family(metrics, variable.name()) {
        Some(place) => {
            metrics[place].metrics.push(device_metric);
            proof {
                assert(metrics@[place as int]@.samples =~= before[place as int].samples.push(
                    sample,
                ));
                assert(metric_views(metrics@) =~= with_variable(before, device@.name, variable@));
            }
        },
        None => {
            let mut samples: Vec<DeviceMetric> = Vec::new();
            samples.push(device_metric);
            let metric = Metric {
                name: String::from_str(variable.name()),
                mtype: String::from_str(variable.vtype()),
                help: String::from_str(variable.help()),
                metrics: samples,
            };
            proof {
                assert(metric@.samples =~= seq![sample]);
            }
            metrics.push(metric);
            proof {
                assert(metric_views(metrics@) =~= with_variable(before, device@.name, variable@));
            }
        },
    }
}

fn push_labels(text: &mut String, labels: &Vec<(String, String)>)
    ensures
        final(text)@ == old(text)@ + labels_text(label_views(labels@)),
{
    let ghost all = label_views(labels@);
    let mut i: usize = 0;
    assert(text@ =~= old(text)@ + labels_text(all.take(0)));
    while i < labels.len()
        invariant
            i <= labels.len(),
            all == label_views(labels@),
            text@ == old(text)@ + labels_text(all.take(i as int)),
        decreases labels.len() - i,
    {
        let ghost before = text@;
        text.push(',');
        text.append(labels[i].0.as_str());
        text.append("=\"");
        text.append(labels[i].1.as_str());
        text.append("\"");
        proof {
            let next = all.take(i + 1);
            assert(next.drop_last() =~= all.take(i as int));
            assert(next.last() == all[i as int]);
            assert(text@ =~= old(text)@ + labels_text(next));
        }
        i += 1;
    }
    assert(all.take(labels@.len() as int) =~= all);
}

fn push_sample(text: &mut String, name: &str, sample: &DeviceMetric)
    ensures
        final(text)@ == old(text)@ + sample_text(name@, sample@),
{
    text.append("padm_");
    text.append(name);
    text.append("{device=\"");
    text.append(sample.device.as_str());
    text.append("\"");
    push_labels(text, &sample.labels);
    text.append("} ");
    text.append(sample.value.as_str());
    text.append("\n");
    assert(text@ =~= old(text)@ + sample_text(name@, sample@));
}

fn push_family(text: &mut String, metric: &Metric)
    ensures
        final(text)@ == old(text)@ + family_text(metric@),
{
    text.append("# HELP ");
    text.append(metric.name.as_str());
    text.append(" ");
    text.append(metric.help.as_str());
    text.append("\n");
    text.append("# TYPE ");
    text.append(metric.name.as_str());
    text.append(" ");
    text.append(metric.mtype.as_str());
    text.append("\n");
    assert(text@ =~= old(text)@ + header_text(metric@));
    let mut i: usize = 0;
    assert(text@ =~= old(text)@ + header_text(metric@) + samples_text(metric@, 0));
    while i < metric.metrics.len()
        invariant
            i <= metric.metrics.len(),
            text@ == old(text)@ + header_text(metric@) + samples_text(metric@, i as nat),
        decreases metric.metrics.len() - i,
    {
        push_sample(text, metric.name.as_str(), &metric.metrics[i]);
        proof {
            assert(text@ =~= old(text)@ + header_text(metric@) + samples_text(
                metric@,
                (i + 1) as nat,
            ));
        }
        i += 1;
    }
    assert(text@ =~= old(text)@ + family_text(metric@));
}

/// Writes the variables of all devices as plain text: see [`output_of`].
pub fn format_output_from_devices(devices: &Vec<Device>) -> (body: String)
    ensures
        body@ == output_of(device_views(devices@)),
{
    let ghost all = device_views(devices@);
    let mut all_metrics: Vec<Metric> = Vec::new();
    let mut d: usize = 0;
    assert(metric_views(all_metrics@) =~= families_of(all.take(0)));
    while d < devices.len()
        invariant
            d <= devices.len(),
            all == device_views(devices@),
            metric_views(all_metrics@) == families_of(all.take(d as int)),
        decreases devices.len() - d,
    {
        let device = &devices[d];
        let ghost before = metric_views(all_metrics@);
        let mut v: usize = 0;
        while v < device.variables.len()
            invariant
                v <= device.variables.len(),
                device == &devices@[d as int],
                metric_views(all_metrics@) == with_variables(before, device@, v as nat),
            decreases device.variables.len() - v,
        {
            add_variable(&mut all_metrics, device, v);
            v += 1;
        }
        proof {
            assert(all.take(d + 1).drop_last() =~= all.take(d as int));
            assert(all.take(d + 1).last() == device@);
        }
        d += 1;
    }
    assert(all.take(devices@.len() as int) =~= all);
    let ghost families = metric_views(all_metrics@);
    let mut body = String::new();
    let mut m: usize = 0;
    assert(body@ =~= families_text(families.take(0)));
    while m < all_metrics.len()
        invariant
            m <= all_metrics.len(),
            families == metric_views(all_metrics@),
            body@ == families_text(families.take(m as int)),
        decreases all_metrics.len() - m,
    {
        push_family(&mut body, &all_metrics[m]);
        proof {
            assert(families.take(m + 1).drop_last() =~= families.take(m as int));
            assert(families.take(m + 1).last() == all_metrics@[m as int]@);
        }
        m += 1;
    }
    assert(families.take(all_metrics@.len() as int) =~= families);
    body
}

} // verus!
