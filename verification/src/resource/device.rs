//! Devices.

use vstd::prelude::*;

use crate::error::Error;
use crate::json::{has_member, member, Json, JsonView};
use crate::ident::{hyphenated, new_v4, to_hyphenated};
use crate::resource::{
    description_or_empty, id_texts, ids_to_strings, Node, ResourceCore, ResourceCoreBuilder,
};
use crate::schema::is_04;
use crate::tags::{texts, TagsView};
use crate::tai::{tai_text, TaiTime};
use crate::version::{supported, APIVersion};

verus! {

/// The kind of a device.
#[derive(Debug, Clone, Copy, PartialEq, Eq, Structural)]
pub enum DeviceType {
    Generic,
    Pipeline,
}

/// The URN of a device type.
pub open spec fn device_type_urn(device_type: DeviceType) -> Seq<char> {
    match device_type {
        DeviceType::Generic => "urn:x-nmos:device:generic"@,
        DeviceType::Pipeline => "urn:x-nmos:device:pipeline"@,
    }
}

impl DeviceType {
    /// The URN of the device type.
    pub fn to_string(&self) -> (s: String)
        ensures
            s@ == device_type_urn(*self),
    {
        match self {
            DeviceType::Generic => String::from_str("urn:x-nmos:device:generic"),
            DeviceType::Pipeline => String::from_str("urn:x-nmos:device:pipeline"),
        }
    }
}

/// Collects what a device has, before the device is made.
#[derive(Debug)]
pub struct DeviceBuilder {
    pub core: ResourceCoreBuilder,
    pub type_: DeviceType,
    pub node_id: u128,
}

/// A device: a unit of a node that holds sources, senders and receivers.
#[derive(Debug)]
pub struct Device {
    pub core: ResourceCore,
    pub type_: DeviceType,
    pub node_id: u128,
    pub senders: Vec<u128>,
    pub receivers: Vec<u128>,
}

/// The JSON form of a device, by API version.
#[derive(Debug)]
pub enum DeviceJson {
    V1_0(is_04::v1_0_x::Device),
}

/// Whether `json` is the v1.0 form of `device`.
pub open spec fn is_device_v1_0(device: Device, json: is_04::v1_0_x::Device) -> bool {
    &&& json.id@ == hyphenated(device.core.id)
    &&& json.version@ == tai_text(device.core.version.secs(), device.core.version.nanos())
    &&& json.label@ == device.core.label@
    &&& json.type_@ == device_type_urn(device.type_)
    &&& json.node_id@ == hyphenated(device.node_id)
    &&& texts(json.senders@) == id_texts(device.senders@)
    &&& texts(json.receivers@) == id_texts(device.receivers@)
}

impl DeviceBuilder {
    /// A builder for a device of `node`, with a label and a type.
    pub fn new(label: &str, node: &Node, device_type: DeviceType) -> (b: DeviceBuilder)
        ensures
            b.core.label@ == label@,
            b.core.description is None,
            b.core.tags@ == TagsView::empty(),
            b.type_ == device_type,
            b.node_id == node.core.id,
    {
        DeviceBuilder {
            core: ResourceCoreBuilder::new(label),
            type_: device_type,
            node_id: node.core.id,
        }
    }

    /// The device with the given identifier and version stamp. It has no
    /// senders and no receivers.
    pub fn build_with(self, id: u128, version: TaiTime) -> (device: Device)
        ensures
            device.core.id == id,
            device.core.version == version,
            device.core.label == self.core.label,
            device.core.description@ == description_or_empty(self.core.description),
            device.core.tags == self.core.tags,
            device.type_ == self.type_,
            device.node_id == self.node_id,
            device.senders@.len() == 0,
            device.receivers@.len() == 0,
    {
        Device {
            core: self.core.build_with(id, version),
            type_: self.type_,
            node_id: self.node_id,
            senders: Vec::new(),
            receivers: Vec::new(),
        }
    }

    /// The device, with a fresh random identifier and the current time as
    /// its version.
    pub fn build(self) -> (device: Device)
        ensures
            device.core.label == self.core.label,
            device.core.description@ == description_or_empty(self.core.description),
            device.core.tags == self.core.tags,
            device.type_ == self.type_,
            device.node_id == self.node_id,
            device.senders@.len() == 0,
            device.receivers@.len() == 0,
    {
        let id = new_v4();
        let version = TaiTime::now();
        self.build_with(id, version)
    }
}

impl Device {
    /// A builder for a device of `node`, with a label and a type.
    pub fn builder(label: &str, node: &Node, device_type: DeviceType) -> (b: DeviceBuilder)
        ensures
            b.core.label@ == label@,
            b.core.description is None,
            b.core.tags@ == TagsView::empty(),
            b.type_ == device_type,
            b.node_id == node.core.id,
    {
        DeviceBuilder::new(label, node, device_type)
    }

    /// The JSON form of the device in version 1.0 of the API.
    pub fn to_v1_0(&self) -> (json: is_04::v1_0_x::Device)
        ensures
            is_device_v1_0(*self, json),
    {
        is_04::v1_0_x::Device {
            id: to_hyphenated(self.core.id),
            version: self.core.version.to_string(),
            label: self.core.label.clone(),
            type_: self.type_.to_string(),
            node_id: to_hyphenated(self.node_id),
            senders: ids_to_strings(&self.senders),
            receivers: ids_to_strings(&self.receivers),
        }
    }

    /// The JSON form of the device in the given API version.
    pub fn to_json(&self, api: &APIVersion) -> (r: Result<DeviceJson, Error>)
        ensures
            supported(*api) ==> (r matches Ok(DeviceJson::V1_0(json)) && is_device_v1_0(*self, json)),
            !supported(*api) ==> r == Err::<DeviceJson, Error>(Error::UnsupportedVersion),
    {
        if api.is_supported() {
            Ok(DeviceJson::V1_0(self.to_v1_0()))
        } else {
            Err(Error::UnsupportedVersion)
        }
    }
}

impl DeviceJson {
    /// The JSON value of the form.
    pub open spec fn value(&self) -> JsonView {
        match *self {
            DeviceJson::V1_0(json) => json.value(),
        }
    }

    /// The JSON value of the form.
    pub fn to_json(&self) -> (json: Json)
        ensures
            json@ == self.value(),
    {
        match self {
            DeviceJson::V1_0(json) => json.to_json(),
        }
    }
}

/// The JSON form of a device carries, under `version`, the text of the
/// version stamp of the device: its seconds, a colon, its nanoseconds.
pub proof fn lemma_device_version(device: Device, json: is_04::v1_0_x::Device)
    requires
        is_device_v1_0(device, json),
    ensures
        has_member(
            json.value(),
            "version"@,
            JsonView::Text(tai_text(device.core.version.secs(), device.core.version.nanos())),
        ),
{
    let members = json.value()->Object_0;
    assert(members[1] == member("version"@, JsonView::Text(json.version@)));
}

} // verus!
