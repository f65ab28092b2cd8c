//! Groups the variables of one poll by device.
use vstd::prelude::*;
use crate::device::schema::{device_views, Device, DeviceView};
use crate::device::variables::{catalog, is_metric, unpack_variable, unpacked};

verus! {

/// `indexmap::IndexMap`, a hash map that keeps its entries in the order of
/// their insertion.
#[verifier::external_type_specification]
#[verifier::external_body]
#[verifier::reject_recursive_types(K)]
#[verifier::reject_recursive_types(V)]
#[verifier::reject_recursive_types(S)]
pub struct ExIndexMap<K, V, S>(indexmap::IndexMap<K, V, S>);

/// The entries of an index map of devices, in the order of their insertion:
/// each key with the device that it is mapped to. No key occurs twice.
pub uninterp spec fn index_entries(map: indexmap::IndexMap<i64, Device>) -> Seq<(i64, Device)>;

/// Calls `IndexMap::with_capacity`: the new map is empty.
#[verifier::external_body]
fn new_index(capacity: usize) -> (fresh: indexmap::IndexMap<i64, Device>)
    ensures
        index_entries(fresh).len() == 0,
{
    indexmap::IndexMap::with_capacity(capacity)
}

/// Calls `IndexMap::get_index_of`, which returns the place of the key among
/// the entries if the key is present. A key is present at one place at most.
#[verifier::external_body]
fn index_of(map: &indexmap::IndexMap<i64, Device>, key: i64) -> (r: Option<usize>)
    ensures
        match r {
            Some(place) => place < index_entries(*map).len() && index_entries(
                *map,
            )[place as int].0 == key,
            None => true,
        },
        forall|i: int|
            0 <= i < index_entries(*map).len() && (#[trigger] index_entries(*map)[i]).0 == key
                ==> r == Some(i as usize),
{
    map.get_index_of(&key)
}

/// Indexes the map by a place, `IndexMut<usize>::index_mut`, which gives
/// access to the value of the entry at that place. The entry keeps its key
/// and its place, and no other entry changes.
#[verifier::external_body]
fn device_at(map: &mut indexmap::IndexMap<i64, Device>, place: usize) -> (device: &mut Device)
    requires
        place < index_entries(*old(map)).len(),
    ensures
        *device == index_entries(*old(map))[place as int].1,
        index_entries(*final(map)) == index_entries(*old(map)).update(
            place as int,
            (index_entries(*old(map))[place as int].0, *final(device)),
        ),
{
    &mut map[place]
}

/// Calls `IndexMap::insert` with a key that is not present: the entry is
/// added at the end.
#[verifier::external_body]
fn index_insert(map: &mut indexmap::IndexMap<i64, Device>, key: i64, device: Device)
    requires
        forall|i: int| 0 <= i < index_entries(*old(map)).len() ==> index_entries(*old(map))[i].0 != key,
    ensures
        index_entries(*final(map)) == index_entries(*old(map)).push((key, device)),
{
    map.insert(key, device);
}

/// Calls `IndexMap::into_values` and collects the values, which come in the
/// order of the entries.
#[verifier::external_body]
fn into_devices(map: indexmap::IndexMap<i64, Device>) -> (devices: Vec<Device>)
    ensures
        devices@.len() == index_entries(map).len(),
        forall|i: int| 0 <= i < devices@.len() ==> #[trigger] devices@[i] == index_entries(map)[i].1,
{
    map.into_values().collect()
}

/// One reported variable together with the device that it belongs to.
#[derive(Debug, Clone)]
pub struct DeviceRecord {
    pub device_id: i64,
    pub device_name: String,
    pub device_type: String,
    pub label: String,
    pub value: String,
}

/// Mathematical value of a [`DeviceRecord`].
pub struct DeviceRecordView {
    pub device_id: i64,
    pub device_name: Seq<char>,
    pub device_type: Seq<char>,
    pub label: Seq<char>,
    pub value: Seq<char>,
}

impl View for DeviceRecord {
    type V = DeviceRecordView;

    open spec fn view(&self) -> DeviceRecordView {
        DeviceRecordView {
            device_id: self.device_id,
            device_name: self.device_name@,
            device_type: self.device_type@,
            label: self.label@,
            value: self.value@,
        }
    }
}

/// The mathematical values of a list of records.
pub open spec fn record_views(records: Seq<DeviceRecord>) -> Seq<DeviceRecordView> {
    Seq::new(records.len(), |i: int| records[i]@)
}

/// The place of the first device with the given identifier.
pub open spec fn position_of(devices: Seq<DeviceView>, id: i64) -> Option<int>
    decreases devices.len(),
{
    if devices.len() == 0 {
        None
    } else {
        match position_of(devices.drop_last(), id) {
            Some(place) => Some(place),
            None => if devices.last().id == id {
                Some(devices.len() - 1)
            } else {
                None
            },
        }
    }
}

/// The devices after one more record. A record whose label is not in the
/// catalog changes nothing. Any other record adds its variable to the device
/// that bears its identifier; where there is none yet, a new device is added
/// at the end, with the name and the type that the record gives.
pub open spec fn with_record(devices: Seq<DeviceView>, record: DeviceRecordView) -> Seq<
    DeviceView,
> {
    if catalog(record.label) is None {
        devices
    } else {
        let variable = unpacked(record.label, record.value);
        match position_of(devices, record.device_id) {
            Some(place) => devices.update(
                place,
                DeviceView { variables: devices[place].variables.push(variable), ..devices[place] },
            ),
            None => devices.push(
                DeviceView {
                    id: record.device_id,
                    name: record.device_name,
                    device_type: record.device_type,
                    variables: seq![variable],
                },
            ),
        }
    }
}

/// The devices that a list of records describes: the records are taken in
/// their order, each as [`with_record`] lays down.
pub open spec fn grouped(records: Seq<DeviceRecordView>) -> Seq<DeviceView>
    decreases records.len(),
{
    if records.len() == 0 {
        Seq::empty()
    } else {
        with_record(grouped(records.drop_last()), records.last())
    }
}

/// No two devices of the list bear the same identifier.
pub open spec fn distinct_ids(devices: Seq<DeviceView>) -> bool {
    forall|i: int, j: int| 0 <= i < j < devices.len() ==> devices[i].id != devices[j].id
}

/// The first place is a place of the identifier, and there is one exactly
/// if some device bears the identifier.
pub proof fn lemma_position_of(devices: Seq<DeviceView>, id: i64)
    ensures
        match position_of(devices, id) {
            Some(place) => 0 <= place < devices.len() && devices[place].id == id && forall|
                j: int,
            | 0 <= j < place ==> devices[j].id != id,
            None => forall|j: int| 0 <= j < devices.len() ==> devices[j].id != id,
        },
    decreases devices.len(),
{
    if devices.len() > 0 {
        lemma_position_of(devices.drop_last(), id);
        assert forall|j: int| 0 <= j < devices.len() - 1 implies devices.drop_last()[j]
            == devices[j] by {}
    }
}

/// Grouping never yields two devices with the same identifier, and every
/// device has at least one variable.
pub proof fn lemma_grouped_ids_distinct(records: Seq<DeviceRecordView>)
    ensures
        distinct_ids(grouped(records)),
        forall|i: int|
            0 <= i < grouped(records).len() ==> (#[trigger] grouped(records)[i]).variables.len()
                > 0,
    decreases records.len(),
{
    if records.len() > 0 {
        let before = grouped(records.drop_last());
        lemma_grouped_ids_distinct(records.drop_last());
        lemma_position_of(before, records.last().device_id);
    }
}

/// The devices of the entries of an index map, in the order of the entries.
spec fn entry_views(entries: Seq<(i64, Device)>) -> Seq<DeviceView> {
    Seq::new(entries.len(), |i: int| entries[i].1@)
}

/// Groups the variables of one poll by device. Records whose label is not in
/// the catalog are passed over. The devices come in the order in which their
/// identifiers first occur, each with its variables in the order of the
/// records, and no identifier occurs twice.
pub fn load_all_from(records: &Vec<DeviceRecord>) -> (devices: Vec<Device>)
    ensures
        device_views(devices@) == grouped(record_views(records@)),
        distinct_ids(device_views(devices@)),
{
    let ghost all = record_views(records@);
    let mut devices = new_index(records.len());
    let mut i: usize = 0;
    assert(entry_views(index_entries(devices)) =~= grouped(all.take(0)));
    while i < records.len()
        invariant
            i <= records.len(),
            all == record_views(records@),
            entry_views(index_entries(devices)) == grouped(all.take(i as int)),
            forall|j: int|
                0 <= j < index_entries(devices).len() ==> (#[trigger] index_entries(devices)[j]).0
                    == index_entries(devices)[j].1.id,
        decreases records.len() - i,
    {
        let record = &records[i];
        let ghost entries = index_entries(devices);
        let ghost before = entry_views(entries);
        proof {
            assert(all.take(i + 1).drop_last() =~= all.take(i as int));
            assert(all.take(i + 1).last() == record@);
            lemma_grouped_ids_distinct(all.take(i as int));
            lemma_position_of(before, record.device_id);
        }
        if is_metric(record.label.as_str()) {
            let variable = unpack_variable(record.label.as_str(), record.value.as_str());
            match index_of(&devices, record.device_id) {
                Some(place) => {
                    proof {
                        assert(before[place as int].id == record.device_id);
                        assert(position_of(before, record.device_id) == Some(place as int));
                    }
                    let device = device_at(&mut devices, place);
                    device.variables.push(variable);
                    proof {
                        assert(device@.variables =~= before[place as int].variables.push(
                            variable@,
                        ));
                    }
                    proof {
                        assert(entry_views(index_entries(devices)) =~= with_record(
                            before,
                            record@,
                        ));
                    }
                },
                None => {
                    proof {
                        assert forall|j: int| 0 <= j < before.len() implies before[j].id
                            != record.device_id by {
                            assert(entries[j].0 == entries[j].1.id);
                        }
                    }
                    let mut variables: Vec<crate::device::variables::Variable> = Vec::new();
                    variables.push(variable);
                    let device = Device {
                        id: record.device_id,
                        name: record.device_name.clone(),
                        device_type: record.device_type.clone(),
                        variables,
                    };
                    proof {
                        assert(device@.variables =~= seq![variable@]);
                    }
                    index_insert(&mut devices, record.device_id, device);
                    proof {
                        assert(entry_views(index_entries(devices)) =~= with_record(
                            before,
                            record@,
                        ));
                    }
                },
            }
        }
        i += 1;
    }
    proof {
        assert(all.take(records@.len() as int) =~= all);
        lemma_grouped_ids_distinct(all);
    }
    let ghost entries = index_entries(devices);
    let list = into_devices(devices);
    assert(device_views(list@) =~= entry_views(entries));
    list
}

} // verus!
