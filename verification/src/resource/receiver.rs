//! Receivers.

use vstd::prelude::*;

use crate::error::Error;
use crate::json::{has_member, member, Json, JsonView};
use crate::ident::{hyphenated, new_v4, to_hyphenated};
use crate::resource::{
    description_or_empty, format_urn, transport_urn, Device, Format, ResourceCore,
    ResourceCoreBuilder, Transport,
};
use crate::schema::is_04;
use crate::tags::{keys_ascending, with_tag, TagsView};
use crate::tai::{tai_text, TaiTime};
use crate::version::{supported, APIVersion};

verus! {

/// Collects what a receiver has, before the receiver is made.
#[derive(Debug)]
#[must_use]
pub struct ReceiverBuilder {
    pub core: ResourceCoreBuilder,
    pub format: Format,
    pub device_id: u128,
    pub transport: Transport,
    pub subscription: Option<u128>,
}

/// A receiver: it takes a flow of some format into a device over a transport.
#[derive(Debug)]
pub struct Receiver {
    pub core: ResourceCore,
    pub format: Format,
    pub device_id: u128,
    pub transport: Transport,
    pub subscription: Option<u128>,
}

/// The JSON form of a receiver, by API version.
#[derive(Debug)]
pub enum ReceiverJson {
    V1_0(is_04::v1_0_x::Receiver),
}

/// Whether `json` is the v1.0 form of `receiver`. The subscription is always
/// there; its sender is `null` where the receiver is subscribed to none.
pub open spec fn is_receiver_v1_0(receiver: Receiver, json: is_04::v1_0_x::Receiver) -> bool {
    &&& json.id@ == hyphenated(receiver.core.id)
    &&& json.version@ == tai_text(receiver.core.version.secs(), receiver.core.version.nanos())
    &&& json.label@ == receiver.core.label@
    &&& json.description@ == receiver.core.description@
    &&& json.format@ == format_urn(receiver.format)
    &&& json.tags@ == receiver.core.tags@
    &&& json.device_id@ == hyphenated(receiver.device_id)
    &&& json.transport@ == transport_urn(receiver.transport)
    &&& json.subscription.sender_id is Some == receiver.subscription is Some
    &&& json.subscription.sender_id matches Some(sender) ==> sender@ == hyphenated(
        receiver.subscription->0,
    )
}

impl ReceiverBuilder {
    /// A builder for a receiver of `device`, with a label, a format and a
    /// transport, subscribed to no sender.
    pub fn new(label: &str, device: &Device, format: Format, transport: Transport) -> (b: Self)
        ensures
            b.core.label@ == label@,
            b.core.description is None,
            b.core.tags@ == TagsView::empty(),
            b.format == format,
            b.device_id == device.core.id,
            b.transport == transport,
            b.subscription is None,
    {
        ReceiverBuilder {
            core: ResourceCoreBuilder::new(label),
            format,
            device_id: device.core.id,
            transport,
            subscription: None,
        }
    }

    /// Sets the description.
    pub fn description(self, description: &str) -> (b: Self)
        ensures
            b.core.label == self.core.label,
            b.core.description matches Some(text) && text@ == description@,
            b.core.tags == self.core.tags,
            b.format == self.format,
            b.device_id == self.device_id,
            b.transport == self.transport,
            b.subscription == self.subscription,
    {
        ReceiverBuilder {
            core: self.core.description(description),
            format: self.format,
            device_id: self.device_id,
            transport: self.transport,
            subscription: self.subscription,
        }
    }

    /// Puts `values` under the tag `key`, in place of what the key had.
    pub fn tag(self, key: &str, values: &[&str]) -> (b: Self)
        ensures
            b.core.label == self.core.label,
            b.core.description == self.core.description,
            b.core.tags@ == with_tag(
                self.core.tags@,
                key@,
                Seq::new(values@.len(), |i: int| values@[i]@),
            ),
            keys_ascending(b.core.tags@),
            b.format == self.format,
            b.device_id == self.device_id,
            b.transport == self.transport,
            b.subscription == self.subscription,
    {
        ReceiverBuilder {
            core: self.core.tag(key, values),
            format: self.format,
            device_id: self.device_id,
            transport: self.transport,
            subscription: self.subscription,
        }
    }

    /// The receiver with the given identifier and version stamp.
    pub fn build_with(self, id: u128, version: TaiTime) -> (receiver: Receiver)
        ensures
            receiver.core.id == id,
            receiver.core.version == version,
            receiver.core.label == self.core.label,
            receiver.core.description@ == description_or_empty(self.core.description),
            receiver.core.tags == self.core.tags,
            receiver.format == self.format,
            receiver.device_id == self.device_id,
            receiver.transport == self.transport,
            receiver.subscription == self.subscription,
    {
        Receiver {
            core: self.core.build_with(id, version),
            format: self.format,
            device_id: self.device_id,
            transport: self.transport,
            subscription: self.subscription,
        }
    }

    /// The receiver, with a fresh random identifier and the current time as
    /// its version.
    #[must_use]
    pub fn build(self) -> (receiver: Receiver)
        ensures
            receiver.core.label == self.core.label,
            receiver.core.description@ == description_or_empty(self.core.description),
            receiver.core.tags == self.core.tags,
            receiver.format == self.format,
            receiver.device_id == self.device_id,
            receiver.transport == self.transport,
            receiver.subscription == self.subscription,
    {
        let id = new_v4();
        let version = TaiTime::now();
        self.build_with(id, version)
    }
}

impl Receiver {
    /// A builder for a receiver of `device`, with a label, a format and a
    /// transport.
    pub fn builder(label: &str, device: &Device, format: Format, transport: Transport) -> (b:
        ReceiverBuilder)
        ensures
            b.core.label@ == label@,
            b.core.description is None,
            b.core.tags@ == TagsView::empty(),
            b.format == format,
            b.device_id == device.core.id,
            b.transport == transport,
            b.subscription is None,
    {
        ReceiverBuilder::new(label, device, format, transport)
    }

    /// The JSON form of the receiver in version 1.0 of the API.
    pub fn to_v1_0(&self) -> (json: is_04::v1_0_x::Receiver)
        ensures
            is_receiver_v1_0(*self, json),
    {
        let sender_id = match self.subscription {
            Some(sender) => Some(to_hyphenated(sender)),
            None => None,
        };
        is_04::v1_0_x::Receiver {
            id: to_hyphenated(self.core.id),
            version: self.core.version.to_string(),
            label: self.core.label.clone(),
            description: self.core.description.clone(),
            format: self.format.to_string(),
            caps: is_04::v1_0_x::Caps {  },
            tags: self.core.tags.duplicate(),
            device_id: to_hyphenated(self.device_id),
            transport: self.transport.to_string(),
            subscription: is_04::v1_0_x::ReceiverSubscription { sender_id },
        }
    }

    /// The JSON form of the receiver in the given API version.
    #[must_use]
    pub fn to_json(&self, api: &APIVersion) -> (r: Result<ReceiverJson, Error>)
        ensures
            supported(*api) ==> (r matches Ok(ReceiverJson::V1_0(json)) && is_receiver_v1_0(*self, json)),
            !supported(*api) ==> r == Err::<ReceiverJson, Error>(Error::UnsupportedVersion),
    {
        if api.is_supported() {
            Ok(ReceiverJson::V1_0(self.to_v1_0()))
        } else {
            Err(Error::UnsupportedVersion)
        }
    }
}

impl ReceiverJson {
    /// The JSON value of the form.
    pub open spec fn value(&self) -> JsonView {
        match *self {
            ReceiverJson::V1_0(json) => json.value(),
        }
    }

    /// The JSON value of the form.
    pub fn to_json(&self) -> (json: Json)
        ensures
            json@ == self.value(),
    {
        match self {
            ReceiverJson::V1_0(json) => json.to_json(),
        }
    }
}

/// The JSON form of a receiver carries, under `version`, the text of the
/// version stamp of the receiver: its seconds, a colon, its nanoseconds.
pub proof fn lemma_receiver_version(receiver: Receiver, json: is_04::v1_0_x::Receiver)
    requires
        is_receiver_v1_0(receiver, json),
    ensures
        has_member(
            json.value(),
            "version"@,
            JsonView::Text(tai_text(receiver.core.version.secs(), receiver.core.version.nanos())),
        ),
{
    let members = json.value()->Object_0;
    assert(members[1] == member("version"@, JsonView::Text(json.version@)));
}

} // verus!
