//! The devices that the bridge knows, as snapshots of one listing.

use vstd::prelude::*;

verus! {

/// The identifier of a light: the service through which a device is
/// switched and dimmed. It is not the identifier of the device.
#[derive(Clone, Debug, PartialEq)]
pub struct LightId(pub String);

impl View for LightId {
    type V = Seq<char>;

    open spec fn view(&self) -> Seq<char> {
        self.0@
    }
}

impl From<&LightId> for String {
    fn from(light_id: &LightId) -> (r: String) {
        light_id.0.clone()
    }
}

impl vstd::std_specs::convert::FromSpecImpl<&LightId> for String {
    open spec fn obeys_from_spec() -> bool {
        true
    }

    open spec fn from_spec(light_id: &LightId) -> String {
        light_id.0
    }
}

/// What the client keeps of a device.
#[derive(Clone, Debug, PartialEq)]
pub struct DeviceInfo {
    pub id: String,
    pub name: String,
    pub product_name: String,
    /// The light service of the device; `None` where it has none, and then
    /// the device cannot be controlled.
    pub light_id: Option<LightId>,
}

/// A device on the bridge.
#[derive(Clone, Debug, PartialEq)]
pub struct HueDevice(pub DeviceInfo);

/// The mathematical value of a [`HueDevice`].
pub struct DeviceModel {
    pub id: Seq<char>,
    pub name: Seq<char>,
    pub product_name: Seq<char>,
    pub light_id: Option<Seq<char>>,
}

impl View for DeviceInfo {
    type V = DeviceModel;

    open spec fn view(&self) -> DeviceModel {
        DeviceModel {
            id: self.id@,
            name: self.name@,
            product_name: self.product_name@,
            light_id: match self.light_id {
                Some(light_id) => Some(light_id@),
                None => None,
            },
        }
    }
}

impl View for HueDevice {
    type V = DeviceModel;

    open spec fn view(&self) -> DeviceModel {
        self.0@
    }
}

/// The values of a sequence of devices.
pub open spec fn device_models(devices: Seq<HueDevice>) -> Seq<DeviceModel> {
    devices.map_values(|d: HueDevice| d@)
}

} // verus!
