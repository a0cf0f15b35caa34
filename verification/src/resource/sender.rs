//! Senders.

use vstd::prelude::*;

use crate::error::Error;
use crate::json::{has_member, member, Json, JsonView};
use crate::ident::{hyphenated, new_v4, to_hyphenated};
use crate::resource::{
    description_or_empty, transport_urn, Device, Flow, ResourceCore, ResourceCoreBuilder,
    Transport,
};
use crate::schema::is_04;
use crate::tags::{keys_ascending, with_tag, TagsView};
use crate::tai::{tai_text, TaiTime};
use crate::version::{supported, APIVersion};

verus! {

/// Collects what a sender has, before the sender is made.
#[derive(Debug)]
pub struct SenderBuilder {
    pub core: ResourceCoreBuilder,
    pub flow_id: u128,
    pub transport: Transport,
    pub device_id: u128,
    pub manifest_href: Option<String>,
}

/// A sender: it offers a flow of a device over a transport.
#[derive(Debug)]
pub struct Sender {
    pub core: ResourceCore,
    pub flow_id: u128,
    pub transport: Transport,
    pub device_id: u128,
    pub manifest_href: String,
}

/// The JSON form of a sender, by API version.
#[derive(Debug)]
pub enum SenderJson {
    V1_0(is_04::v1_0_x::Sender),
}

/// Whether `json` is the v1.0 form of `sender`. The tags are left out where
/// the sender has none.
pub open spec fn is_sender_v1_0(sender: Sender, json: is_04::v1_0_x::Sender) -> bool {
    &&& json.id@ == hyphenated(sender.core.id)
    &&& json.version@ == tai_text(sender.core.version.secs(), sender.core.version.nanos())
    &&& json.label@ == sender.core.label@
    &&& json.description@ == sender.core.description@
    &&& json.flow_id@ == hyphenated(sender.flow_id)
    &&& json.transport@ == transport_urn(sender.transport)
    &&& json.tags is Some == (sender.core.tags@.len() > 0)
    &&& json.tags matches Some(tags) ==> tags@ == sender.core.tags@
    &&& json.device_id@ == hyphenated(sender.device_id)
    &&& json.manifest_href@ == sender.manifest_href@
}

impl SenderBuilder {
    /// A builder for a sender of `device` that offers `flow` over
    /// `transport`, with a label.
    pub fn new(label: &str, device: &Device, flow: &Flow, transport: Transport) -> (b:
        SenderBuilder)
        ensures
            b.core.label@ == label@,
            b.core.description is None,
            b.core.tags@ == TagsView::empty(),
            b.flow_id == flow.core.id,
            b.transport == transport,
            b.device_id == device.core.id,
            b.manifest_href is None,
    {
        SenderBuilder {
            core: ResourceCoreBuilder::new(label),
            flow_id: flow.core.id,
            transport,
            device_id: device.core.id,
            manifest_href: None,
        }
    }

    /// Sets the description.
    pub fn description(self, description: &str) -> (b: SenderBuilder)
        ensures
            b.core.label == self.core.label,
            b.core.description matches Some(text) && text@ == description@,
            b.core.tags == self.core.tags,
            b.flow_id == self.flow_id,
            b.transport == self.transport,
            b.device_id == self.device_id,
            b.manifest_href == self.manifest_href,
    {
        SenderBuilder {
            core: self.core.description(description),
            flow_id: self.flow_id,
            transport: self.transport,
            device_id: self.device_id,
            manifest_href: self.manifest_href,
        }
    }

    /// Puts `values` under the tag `key`, in place of what the key had.
    pub fn tag(self, key: &str, values: &[&str]) -> (b: Self)
        ensures
            b.core.label == self.core.label,
            b.core.description == self.core.description,
            b.core.tags@ == with_tag(
                self.core.tags@,
                key@,
                Seq::new(values@.len(), |i: int| values@[i]@),
            ),
            keys_ascending(b.core.tags@),
            b.flow_id == self.flow_id,
            b.transport == self.transport,
            b.device_id == self.device_id,
            b.manifest_href == self.manifest_href,
    {
        SenderBuilder {
            core: self.core.tag(key, values),
            flow_id: self.flow_id,
            transport: self.transport,
            device_id: self.device_id,
            manifest_href: self.manifest_href,
        }
    }

    /// Sets the address of the manifest.
    pub fn manifest(self, manifest: &str) -> (b: SenderBuilder)
        ensures
            b.core == self.core,
            b.flow_id == self.flow_id,
            b.transport == self.transport,
            b.device_id == self.device_id,
            b.manifest_href matches Some(href) && href@ == manifest@,
    {
        SenderBuilder {
            core: self.core,
            flow_id: self.flow_id,
            transport: self.transport,
            device_id: self.device_id,
            manifest_href: Some(manifest.to_owned()),
        }
    }

    /// The sender with the given identifier and version stamp. The address
    /// of its manifest is empty where none was set.
    pub fn build_with(self, id: u128, version: TaiTime) -> (sender: Sender)
        ensures
            sender.core.id == id,
            sender.core.version == version,
            sender.core.label == self.core.label,
            sender.core.description@ == description_or_empty(self.core.description),
            sender.core.tags == self.core.tags,
            sender.flow_id == self.flow_id,
            sender.transport == self.transport,
            sender.device_id == self.device_id,
            sender.manifest_href@ == description_or_empty(self.manifest_href),
    {
        let manifest_href = match self.manifest_href {
            Some(href) => href,
            None => String::new(),
        };
        Sender {
            core: self.core.build_with(id, version),
            flow_id: self.flow_id,
            transport: self.transport,
            device_id: self.device_id,
            manifest_href,
        }
    }

    /// The sender, with a fresh random identifier and the current time as
    /// its version.
    pub fn build(self) -> (sender: Sender)
        ensures
            sender.core.label == self.core.label,
            sender.core.description@ == description_or_empty(self.core.description),
            sender.core.tags == self.core.tags,
            sender.flow_id == self.flow_id,
            sender.transport == self.transport,
            sender.device_id == self.device_id,
            sender.manifest_href@ == description_or_empty(self.manifest_href),
    {
        let id = new_v4();
        let version = TaiTime::now();
        self.build_with(id, version)
    }
}

impl Sender {
    /// A builder for a sender of `device` that offers `flow` over
    /// `transport`, with a label.
    pub fn builder(label: &str, device: &Device, flow: &Flow, transport: Transport) -> (b:
        SenderBuilder)
        ensures
            b.core.label@ == label@,
            b.core.description is None,
            b.core.tags@ == TagsView::empty(),
            b.flow_id == flow.core.id,
            b.transport == transport,
            b.device_id == device.core.id,
            b.manifest_href is None,
    {
        SenderBuilder::new(label, device, flow, transport)
    }

    /// The JSON form of the sender in version 1.0 of the API.
    pub fn to_v1_0(&self) -> (json: is_04::v1_0_x::Sender)
        ensures
            is_sender_v1_0(*self, json),
    {
        let tags = if !self.core.tags.is_empty() {
            Some(self.core.tags.duplicate())
        } else {
            None
        };
        is_04::v1_0_x::Sender {
            id: to_hyphenated(self.core.id),
            version: self.core.version.to_string(),
            label: self.core.label.clone(),
            description: self.core.description.clone(),
            flow_id: to_hyphenated(self.flow_id),
            transport: self.transport.to_string(),
            tags,
            device_id: to_hyphenated(self.device_id),
            manifest_href: self.manifest_href.clone(),
        }
    }

    /// The JSON form of the sender in the given API version.
    pub fn to_json(&self, api: &APIVersion) -> (r: Result<SenderJson, Error>)
        ensures
            supported(*api) ==> (r matches Ok(SenderJson::V1_0(json)) && is_sender_v1_0(*self, json)),
            !supported(*api) ==> r == Err::<SenderJson, Error>(Error::UnsupportedVersion),
    {
        if api.is_supported() {
            Ok(SenderJson::V1_0(self.to_v1_0()))
        } else {
            Err(Error::UnsupportedVersion)
        }
    }
}

impl SenderJson {
    /// The JSON value of the form.
    pub open spec fn value(&self) -> JsonView {
        match *self {
            SenderJson::V1_0(json) => json.value(),
        }
    }

    /// The JSON value of the form.
    pub fn to_json(&self) -> (json: Json)
        ensures
            json@ == self.value(),
    {
        match self {
            SenderJson::V1_0(json) => json.to_json(),
        }
    }
}

/// The JSON form of a sender carries, under `version`, the text of the
/// version stamp of the sender: its seconds, a colon, its nanoseconds.
pub proof fn lemma_sender_version(sender: Sender, json: is_04::v1_0_x::Sender)
    requires
        is_sender_v1_0(sender, json),
    ensures
        has_member(
            json.value(),
            "version"@,
            JsonView::Text(tai_text(sender.core.version.secs(), sender.core.version.nanos())),
        ),
{
    let members = json.value()->Object_0;
    assert(members[1] == member("version"@, JsonView::Text(json.version@)));
}

} // verus!
