//! The metric update pass: from the variables of one poll to the observations
//! that are written to the registry.
use vstd::prelude::*;
use crate::metrics::catalog::{
    ignored_label,
    lemma_catalog_keys_are_valid,
    lemma_vendor_labels_distinct,
    metric_for,
    PADMMetric,
};
use crate::metrics::label::{sanitize_label, sanitized};
use crate::metrics::registry::key_is_valid;
use crate::metrics::observation::{
    flags_set,
    observation_views,
    Observation,
    ObservationView,
    Reading,
    ReadingView,
};
use crate::target::schema::{
    firmware_label,
    ApiResponse,
    Attributes,
    AttributesView,
    RawValueView,
};
use crate::text::views;

verus! {

/// The observation for one declared state of an enumerated variable: the flag
/// is set for the state that the variable is in.
pub open spec fn state_observation(
    metric: PADMMetric,
    record: AttributesView,
    state: Seq<char>,
) -> ObservationView {
    ObservationView {
        key: metric.spec_key(),
        label_values: seq![record.device_name, sanitized(state)],
        value: ReadingView::Flag(state == record.value),
    }
}

/// The observation for a scalar variable. The device name is the first label
/// value; a family with a second label takes the sanitized value for it.
pub open spec fn scalar_observation(metric: PADMMetric, record: AttributesView) -> ObservationView {
    ObservationView {
        key: metric.spec_key(),
        label_values: if metric.label_names().len() > 1 {
            seq![record.device_name, sanitized(record.value)]
        } else {
            seq![record.device_name]
        },
        value: ReadingView::Raw(record.raw()),
    }
}

/// Whether a variable is written as one flag per declared state.
pub open spec fn is_state_record(metric: PADMMetric, record: AttributesView) -> bool {
    metric.is_enumerated() && record.enum_values.len() > 0
}

/// The observations that one variable gives rise to: none for an ignored or
/// unknown label, one per declared state for an enumerated variable with
/// declared states, and one otherwise.
pub open spec fn record_observations(record: AttributesView) -> Seq<ObservationView> {
    if ignored_label(record.label) {
        Seq::empty()
    } else {
        match metric_for(record.label) {
            None => Seq::empty(),
            Some(metric) => if is_state_record(metric, record) {
                Seq::new(
                    record.enum_values.len(),
                    |i: int| state_observation(metric, record, record.enum_values[i]),
                )
            } else {
                seq![scalar_observation(metric, record)]
            },
        }
    }
}

/// The observations of a list of variables, in the order of the variables.
pub open spec fn variable_observations(records: Seq<AttributesView>) -> Seq<ObservationView>
    decreases records.len(),
{
    if records.len() == 0 {
        Seq::empty()
    } else {
        variable_observations(records.drop_last()) + record_observations(records.last())
    }
}

/// Whether some variable of the poll belongs to the named device.
pub open spec fn device_reported(records: Seq<AttributesView>, device: Seq<char>) -> bool {
    exists|i: int| 0 <= i < records.len() && (#[trigger] records[i]).device_name == device
}

/// The observation that says whether a tracked device was reported.
pub open spec fn tracked_observation(
    records: Seq<AttributesView>,
    device: Seq<char>,
) -> ObservationView {
    ObservationView {
        key: PADMMetric::DeviceUp.spec_key(),
        label_values: seq![device],
        value: ReadingView::Flag(device_reported(records, device)),
    }
}

/// The observations for the tracked devices, in the order given.
pub open spec fn tracked_observations(
    records: Seq<AttributesView>,
    devices: Seq<Seq<char>>,
) -> Seq<ObservationView> {
    Seq::new(devices.len(), |i: int| tracked_observation(records, devices[i]))
}

/// Everything that one poll writes: the observations of its variables, then
/// those of the tracked devices.
pub open spec fn planned_observations(
    records: Seq<AttributesView>,
    devices: Seq<Seq<char>>,
) -> Seq<ObservationView> {
    variable_observations(records) + tracked_observations(records, devices)
}

fn push_state_observations(metric: PADMMetric, record: &Attributes, out: &mut Vec<Observation>)
    ensures
        observation_views(final(out)@) == observation_views(old(out)@) + Seq::new(
            record@.enum_values.len(),
            |i: int| state_observation(metric, record@, record@.enum_values[i]),
        ),
{
    let ghost before = observation_views(out@);
    let ghost states = Seq::new(
        record@.enum_values.len(),
        |i: int| state_observation(metric, record@, record@.enum_values[i]),
    );
    let mut i: usize = 0;
    while i < record.enum_values.len()
        invariant
            i <= record.enum_values.len(),
            states == Seq::new(
                record@.enum_values.len(),
                |i: int| state_observation(metric, record@, record@.enum_values[i]),
            ),
            observation_views(out@) =~= before + states.take(i as int),
        decreases record.enum_values.len() - i,
    {
        let state = &record.enum_values[i];
        let on = state.name.as_str().eq(record.value.as_str());
        let mut label_values: Vec<String> = Vec::new();
        label_values.push(record.device_name.clone());
        label_values.push(sanitize_label(state.name.clone()));
        let observation = Observation {
            key: metric.to_metric_key(),
            label_values,
            value: Reading::Flag(on),
        };
        proof {
            assert(observation@.label_values =~= seq![
                record@.device_name,
                sanitized(record@.enum_values[i as int]),
            ]);
            assert(observation@ == states[i as int]);
        }
        let ghost earlier = out@;
        out.push(observation);
        proof {
            assert(observation_views(out@) =~= observation_views(earlier).push(observation@));
            assert(states.take(i + 1) =~= states.take(i as int).push(states[i as int]));
        }
        i += 1;
    }
    assert(states.take(states.len() as int) =~= states);
}

fn push_scalar_observation(metric: PADMMetric, record: &Attributes, out: &mut Vec<Observation>)
    ensures
        observation_views(final(out)@) == observation_views(old(out)@).push(
            scalar_observation(metric, record@),
        ),
{
    let key = metric.to_metric_key();
    let mut label_values: Vec<String> = Vec::new();
    label_values.push(record.device_name.clone());
    if key.labels.len() > 1 {
        label_values.push(sanitize_label(record.value.clone()));
    }
    let observation = Observation { key, label_values, value: Reading::Raw(record.get_raw()) };
    proof {
        assert(observation@.label_values =~= scalar_observation(metric, record@).label_values);
    }
    out.push(observation);
    assert(observation_views(out@) =~= observation_views(old(out)@).push(
        scalar_observation(metric, record@),
    ));
}

/// Appends the observations that one variable gives rise to.
pub fn push_record_observations(record: &Attributes, out: &mut Vec<Observation>)
    ensures
        observation_views(final(out)@) == observation_views(old(out)@) + record_observations(
            record@,
        ),
{
    if PADMMetric::is_ignored(record.label.as_str()) {
        assert(observation_views(out@) + Seq::empty() =~= observation_views(out@));
        return;
    }
    match PADMMetric::from_label(record.label.as_str()) {
        None => {
            assert(observation_views(out@) + Seq::empty() =~= observation_views(out@));
        },
        Some(metric) => {
            if metric.to_metric_key().is_enum && record.enum_values.len() > 0 {
                push_state_observations(metric, record, out);
            } else {
                push_scalar_observation(metric, record, out);
                assert(observation_views(old(out)@).push(scalar_observation(metric, record@))
                    =~= observation_views(old(out)@) + seq![scalar_observation(metric, record@)]);
            }
        },
    }
}

/// Tells whether some variable of the poll belongs to the named device.
pub fn is_device_reported(response: &ApiResponse, device: &str) -> (r: bool)
    ensures
        r == device_reported(response@, device@),
{
    let mut i: usize = 0;
    while i < response.data.len()
        invariant
            i <= response.data.len(),
            forall|j: int| 0 <= j < i ==> (#[trigger] response@[j]).device_name != device@,
        decreases response.data.len() - i,
    {
        if response.data[i].attributes.device_name.as_str().eq(device) {
            assert(response@[i as int].device_name == device@);
            return true;
        }
        i += 1;
    }
    false
}

/// Computes the observations that one poll writes to the registry: for each
/// variable those of [`record_observations`], in the order of the variables,
/// then for each tracked device a flag that says whether the poll reported a
/// device of that name.
pub fn plan_updates(response: &ApiResponse, tracked_devices: &Vec<String>) -> (plan: Vec<
    Observation,
>)
    ensures
        observation_views(plan@) == planned_observations(response@, views(tracked_devices@)),
{
    let mut plan: Vec<Observation> = Vec::new();
    let mut i: usize = 0;
    assert(observation_views(plan@) =~= variable_observations(response@.take(0)));
    while i < response.data.len()
        invariant
            i <= response.data.len(),
            observation_views(plan@) == variable_observations(response@.take(i as int)),
        decreases response.data.len() - i,
    {
        proof {
            let next = response@.take(i + 1);
            assert(next.drop_last() =~= response@.take(i as int));
            assert(next.last() == response.data@[i as int].attributes@);
        }
        push_record_observations(&response.data[i].attributes, &mut plan);
        i += 1;
    }
    assert(response@.take(response@.len() as int) =~= response@);
    let ghost variables = observation_views(plan@);
    let ghost devices = tracked_observations(response@, views(tracked_devices@));
    let mut k: usize = 0;
    while k < tracked_devices.len()
        invariant
            k <= tracked_devices.len(),
            variables == variable_observations(response@),
            devices == tracked_observations(response@, views(tracked_devices@)),
            observation_views(plan@) =~= variables + devices.take(k as int),
        decreases tracked_devices.len() - k,
    {
        let device = &tracked_devices[k];
        let found = is_device_reported(response, device.as_str());
        let mut label_values: Vec<String> = Vec::new();
        label_values.push(device.clone());
        let observation = Observation {
            key: PADMMetric::DeviceUp.to_metric_key(),
            label_values,
            value: Reading::Flag(found),
        };
        proof {
            assert(observation@.label_values =~= seq![device@]);
            assert(observation@ == devices[k as int]);
        }
        let ghost earlier = plan@;
        plan.push(observation);
        proof {
            assert(observation_views(plan@) =~= observation_views(earlier).push(observation@));
            assert(devices.take(k + 1) =~= devices.take(k as int).push(devices[k as int]));
        }
        k += 1;
    }
    assert(devices.take(devices.len() as int) =~= devices);
    plan
}

/// How many of the declared states bear the given name.
pub open spec fn occurrences(states: Seq<Seq<char>>, name: Seq<char>) -> nat
    decreases states.len(),
{
    if states.len() == 0 {
        0
    } else {
        occurrences(states.drop_last(), name) + if states.last() == name {
            1nat
        } else {
            0nat
        }
    }
}

proof fn lemma_flags_of_states(metric: PADMMetric, record: AttributesView, count: nat)
    requires
        count <= record.enum_values.len(),
    ensures
        flags_set(
            Seq::new(count, |i: int| state_observation(metric, record, record.enum_values[i])),
        ) == occurrences(record.enum_values.take(count as int), record.value),
    decreases count,
{
    let list = Seq::new(count, |i: int| state_observation(metric, record, record.enum_values[i]));
    if count > 0 {
        let fewer = (count - 1) as nat;
        lemma_flags_of_states(metric, record, fewer);
        assert(list.drop_last() =~= Seq::new(
            fewer,
            |i: int| state_observation(metric, record, record.enum_values[i]),
        ));
        assert(record.enum_values.take(count as int).drop_last() =~= record.enum_values.take(
            fewer as int,
        ));
    }
}

/// An enumerated variable with declared states is written as one flag per
/// declared state, and as many flags are set as declared states bear the name
/// of the state that the variable is in.
pub proof fn lemma_state_flags(record: AttributesView, metric: PADMMetric)
    requires
        !ignored_label(record.label),
        metric_for(record.label) == Some(metric),
        is_state_record(metric, record),
    ensures
        record_observations(record).len() == record.enum_values.len(),
        forall|i: int|
            0 <= i < record.enum_values.len() ==> (#[trigger] record_observations(
                record,
            )[i]).value is Flag,
        flags_set(record_observations(record)) == occurrences(record.enum_values, record.value),
{
    lemma_flags_of_states(metric, record, record.enum_values.len());
    assert(record.enum_values.take(record.enum_values.len() as int) =~= record.enum_values);
}

/// Where the state that an enumerated variable is in is declared exactly
/// once, exactly one of its flags is set: the values written for the variable
/// sum to one.
pub proof fn lemma_exactly_one_state_set(record: AttributesView, metric: PADMMetric)
    requires
        !ignored_label(record.label),
        metric_for(record.label) == Some(metric),
        is_state_record(metric, record),
        occurrences(record.enum_values, record.value) == 1,
    ensures
        flags_set(record_observations(record)) == 1,
{
    lemma_state_flags(record, metric);
}

/// The firmware version is written as the constant one, whatever the raw
/// text of the variable; the version itself appears as the second label
/// value only.
pub proof fn lemma_firmware_version_is_one(record: AttributesView)
    requires
        record.label == firmware_label(),
    ensures
        record_observations(record) == seq![
            ObservationView {
                key: PADMMetric::FirmwareVersion.spec_key(),
                label_values: seq![record.device_name, sanitized(record.value)],
                value: ReadingView::Raw(RawValueView::One),
            },
        ],
{
    reveal_strlit("Firmware Version");
    reveal_strlit("LCD Display Details");
    reveal_strlit("Hardware Configuration");
    reveal_strlit("Temperature (C) Thresholds and Bounds");
    assert(PADMMetric::FirmwareVersion.vendor_label() == record.label);
    lemma_vendor_labels_distinct(metric_for(record.label).unwrap(), PADMMetric::FirmwareVersion);
}

/// A family can be made from the key of the observation, and the
/// observation has as many label values as its key has label names.
pub open spec fn fits_its_key(observation: ObservationView) -> bool {
    key_is_valid(observation.key) && observation.label_values.len()
        == observation.key.labels.len()
}

proof fn lemma_record_fits(record: AttributesView)
    ensures
        forall|i: int|
            0 <= i < record_observations(record).len() ==> fits_its_key(
                #[trigger] record_observations(record)[i],
            ),
{
    if !ignored_label(record.label) {
        if let Some(metric) = metric_for(record.label) {
            lemma_catalog_keys_are_valid(metric);
            assert(metric.spec_key().labels.len() == if metric.second_label() is Some {
                2int
            } else {
                1int
            });
        }
    }
}

proof fn lemma_variables_fit(records: Seq<AttributesView>)
    ensures
        forall|i: int|
            0 <= i < variable_observations(records).len() ==> fits_its_key(
                #[trigger] variable_observations(records)[i],
            ),
    decreases records.len(),
{
    if records.len() > 0 {
        let earlier = variable_observations(records.drop_last());
        lemma_variables_fit(records.drop_last());
        lemma_record_fits(records.last());
        assert forall|i: int| 0 <= i < variable_observations(records).len() implies fits_its_key(
            #[trigger] variable_observations(records)[i],
        ) by {
            if i < earlier.len() {
                assert(variable_observations(records)[i] == earlier[i]);
            } else {
                assert(variable_observations(records)[i] == record_observations(
                    records.last(),
                )[i - earlier.len()]);
            }
        }
    }
}

/// Every observation of a poll has a key from which a family can be made,
/// and as many label values as its key has label names: the registry refuses
/// none for its descriptor or for the number of its label values.
pub proof fn lemma_planned_fit_their_keys(records: Seq<AttributesView>, devices: Seq<Seq<char>>)
    ensures
        forall|i: int|
            0 <= i < planned_observations(records, devices).len() ==> fits_its_key(
                #[trigger] planned_observations(records, devices)[i],
            ),
{
    let variables = variable_observations(records);
    let all = planned_observations(records, devices);
    lemma_variables_fit(records);
    lemma_catalog_keys_are_valid(PADMMetric::DeviceUp);
    assert forall|i: int| 0 <= i < all.len() implies fits_its_key(#[trigger] all[i]) by {
        if i < variables.len() {
            assert(all[i] == variables[i]);
        } else {
            assert(all[i] == tracked_observation(records, devices[i - variables.len()]));
        }
    }
}

/// After the observations of the variables, a poll writes one observation for
/// each tracked device, in the order of the devices: the family is
/// `device_up`, the only label value is the name of the device, and the flag
/// is set exactly if some variable of the poll belongs to a device of that
/// name.
pub proof fn lemma_tracked_devices_are_flagged(
    records: Seq<AttributesView>,
    devices: Seq<Seq<char>>,
    place: int,
)
    requires
        0 <= place < devices.len(),
    ensures
        planned_observations(records, devices).len() == variable_observations(records).len()
            + devices.len(),
        planned_observations(records, devices)[variable_observations(records).len() + place] == (
        ObservationView {
            key: PADMMetric::DeviceUp.spec_key(),
            label_values: seq![devices[place]],
            value: ReadingView::Flag(device_reported(records, devices[place])),
        }),
{
}

} // verus!
