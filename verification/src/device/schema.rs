//! A device and its variables.
use vstd::prelude::*;
use crate::device::variables::{Variable, VariableView};

verus! {

/// A device that an endpoint reports, with its variables in the order in
/// which they were reported.
#[derive(Debug, Clone)]
pub struct Device {
    pub id: i64,
    pub name: String,
    pub device_type: String,
    pub variables: Vec<Variable>,
}

/// Mathematical value of a [`Device`].
pub struct DeviceView {
    pub id: i64,
    pub name: Seq<char>,
    pub device_type: Seq<char>,
    pub variables: Seq<VariableView>,
}

impl View for Device {
    type V = DeviceView;

    open spec fn view(&self) -> DeviceView {
        DeviceView {
            id: self.id,
            name: self.name@,
            device_type: self.device_type@,
            variables: Seq::new(self.variables@.len(), |i: int| self.variables@[i]@),
        }
    }
}

/// The mathematical values of a list of devices.
pub open spec fn device_views(devices: Seq<Device>) -> Seq<DeviceView> {
    Seq::new(devices.len(), |i: int| devices[i]@)
}

} // verus!
