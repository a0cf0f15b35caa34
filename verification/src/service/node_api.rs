//! The handlers of the Node API: one for each resource and each list.

use vstd::prelude::*;

use crate::ident::{hyphenated, to_hyphenated};
use crate::model::Model;
use crate::resource::device::is_device_v1_0;
use crate::resource::flow::is_flow_v1_0;
use crate::resource::node::is_node_v1_0;
use crate::resource::receiver::is_receiver_v1_0;
use crate::resource::sender::is_sender_v1_0;
use crate::resource::source::is_source_v1_0;
use crate::resource::{DeviceJson, FlowJson, NodeJson, ReceiverJson, SenderJson, SourceJson};
use crate::service::error::ServiceError;
use crate::service::Status;
use crate::store::lookup;
use crate::version::{parse_version, supported, version_text, APIVersion};

verus! {

/// The message for a version that is well formed and not supported.
pub open spec fn unsupported_message(version: APIVersion) -> Seq<char> {
    "Unsupported API: "@ + version_text(version)
}

/// The message for a resource that the model does not hold.
pub open spec fn missing_message(title: Seq<char>, id: u128) -> Seq<char> {
    title + " "@ + hyphenated(id) + " does not exist"@
}

/// Whether `list` holds the v1.0 forms of the devices of the model, in the
/// order of the model.
pub open spec fn lists_devices(model: Model, list: Seq<DeviceJson>) -> bool {
    &&& list.len() == model.devices@.len()
    &&& forall|i: int|
        0 <= i < list.len() ==> (#[trigger] list[i] matches DeviceJson::V1_0(json) && is_device_v1_0(
            model.devices@[i],
            json,
        ))
}

/// Whether `list` holds the v1.0 forms of the receivers of the model, in the
/// order of the model.
pub open spec fn lists_receivers(model: Model, list: Seq<ReceiverJson>) -> bool {
    &&& list.len() == model.receivers@.len()
    &&& forall|i: int|
        0 <= i < list.len() ==> (#[trigger] list[i] matches ReceiverJson::V1_0(json) && is_receiver_v1_0(
            model.receivers@[i],
            json,
        ))
}

/// Whether `list` holds the v1.0 forms of the senders of the model, in the
/// order of the model.
pub open spec fn lists_senders(model: Model, list: Seq<SenderJson>) -> bool {
    &&& list.len() == model.senders@.len()
    &&& forall|i: int|
        0 <= i < list.len() ==> (#[trigger] list[i] matches SenderJson::V1_0(json) && is_sender_v1_0(
            model.senders@[i],
            json,
        ))
}

/// Whether `list` holds the v1.0 forms of the sources of the model, in the
/// order of the model.
pub open spec fn lists_sources(model: Model, list: Seq<SourceJson>) -> bool {
    &&& list.len() == model.sources@.len()
    &&& forall|i: int|
        0 <= i < list.len() ==> (#[trigger] list[i] matches SourceJson::V1_0(json) && is_source_v1_0(
            model.sources@[i],
            json,
        ))
}

/// Whether `list` holds the v1.0 forms of the flows of the model, in the
/// order of the model.
pub open spec fn lists_flows(model: Model, list: Seq<FlowJson>) -> bool {
    &&& list.len() == model.flows@.len()
    &&& forall|i: int|
        0 <= i < list.len() ==> (#[trigger] list[i] matches FlowJson::V1_0(json) && is_flow_v1_0(
            model.flows@[i],
            json,
        ))
}

/// The error, if any, with which a request is refused for its API version:
/// status 400, with a message that tells a malformed version from one that is
/// not supported.
pub open spec fn version_error(api: Seq<char>) -> Option<(Status, Option<Seq<char>>)> {
    match parse_version(api) {
        None => Some((Status::BadRequest, Some("API version badly formed"@))),
        Some(version) => if supported(version) {
            None
        } else {
            Some((Status::BadRequest, Some(unsupported_message(version))))
        },
    }
}

/// Reads the API version of a request and checks that it is supported.
pub fn parse_api_version(api: &str) -> (r: Result<APIVersion, ServiceError>)
    ensures
        r is Ok <==> version_error(api@) is None,
        r matches Ok(version) ==> parse_version(api@) == Some(version),
        r matches Err(e) ==> Some(e@) == version_error(api@),
{
    let version = match APIVersion::parse(api) {
        Some(version) => version,
        None => {
            return Err(
                ServiceError::new(
                    Status::BadRequest,
                    Some(String::from_str("API version badly formed")),
                ),
            );
        },
    };
    if !version.is_supported() {
        let mut message = String::from_str("Unsupported API: ");
        message.append(version.to_string().as_str());
        return Err(ServiceError::new(Status::BadRequest, Some(message)));
    }
    Ok(version)
}

/// The error for a resource that the model does not hold.
pub fn missing(title: &str, id: u128) -> (e: ServiceError)
    ensures
        e@ == (Status::NotFound, Some(missing_message(title@, id))),
{
    let mut message = title.to_owned();
    message.append(" ");
    message.append(to_hyphenated(id).as_str());
    message.append(" does not exist");
    assert(message@ =~= missing_message(title@, id));
    ServiceError::new(Status::NotFound, Some(message))
}

/// The node itself: the first node of the model. Where the model has no node
/// the answer is status 404 without a message.
pub fn get_self(api: &str, model: &Model) -> (r: Result<NodeJson, ServiceError>)
    ensures
        r is Ok <==> version_error(api@) is None && model.nodes@.len() > 0,
        r matches Ok(NodeJson::V1_0(json)) ==> is_node_v1_0(model.nodes@[0], json),
        r matches Err(e) ==> Some(e@) == (if version_error(api@) is Some {
            version_error(api@)
        } else {
            Some((Status::NotFound, None))
        }),
{
    let _ = match parse_api_version(api) {
        Ok(version) => version,
        Err(e) => {
            return Err(e);
        },
    };
    if model.nodes.len() == 0 {
        return Err(ServiceError::new(Status::NotFound, None));
    }
    Ok(NodeJson::V1_0(model.nodes[0].to_v1_0()))
}

/// All devices, in the order of the model.
pub fn get_devices(api: &str, model: &Model) -> (r: Result<Vec<DeviceJson>, ServiceError>)
    ensures
        r is Ok <==> version_error(api@) is None,
        r matches Err(e) ==> Some(e@) == version_error(api@),
        r matches Ok(list) ==> lists_devices(*model, list@),
{
    let _ = match parse_api_version(api) {
        Ok(version) => version,
        Err(e) => {
            return Err(e);
        },
    };
    let mut list: Vec<DeviceJson> = Vec::new();
    let mut i: usize = 0;
    while i < model.devices.len()
        invariant
            i <= model.devices.len(),
            list@.len() == i,
            forall|k: int|
                0 <= k < i ==> (#[trigger] list@[k] matches DeviceJson::V1_0(json)
                    && is_device_v1_0(model.devices@[k], json)),
        decreases model.devices.len() - i,
    {
        list.push(DeviceJson::V1_0(model.devices[i].to_v1_0()));
        i = i + 1;
    }
    Ok(list)
}

/// The device with the identifier.
pub fn get_device(api: &str, id: u128, model: &Model) -> (r: Result<DeviceJson, ServiceError>)
    ensures
        r is Ok <==> version_error(api@) is None && lookup(model.devices@, id) is Some,
        r matches Ok(DeviceJson::V1_0(json)) ==> is_device_v1_0(lookup(model.devices@, id)->0, json),
        r matches Err(e) ==> Some(e@) == (if version_error(api@) is Some {
            version_error(api@)
        } else {
            Some((Status::NotFound, Some(missing_message("Device"@, id))))
        }),
{
    let _ = match parse_api_version(api) {
        Ok(version) => version,
        Err(e) => {
            return Err(e);
        },
    };
    match model.get_device(id) {
        Ok(device) => Ok(DeviceJson::V1_0(device.to_v1_0())),
        Err(_) => Err(missing("Device", id)),
    }
}

/// All receivers, in the order of the model.
pub fn get_receivers(api: &str, model: &Model) -> (r: Result<Vec<ReceiverJson>, ServiceError>)
    ensures
        r is Ok <==> version_error(api@) is None,
        r matches Err(e) ==> Some(e@) == version_error(api@),
        r matches Ok(list) ==> lists_receivers(*model, list@),
{
    let _ = match parse_api_version(api) {
        Ok(version) => version,
        Err(e) => {
            return Err(e);
        },
    };
    let mut list: Vec<ReceiverJson> = Vec::new();
    let mut i: usize = 0;
    while i < model.receivers.len()
        invariant
            i <= model.receivers.len(),
            list@.len() == i,
            forall|k: int|
                0 <= k < i ==> (#[trigger] list@[k] matches ReceiverJson::V1_0(json)
                    && is_receiver_v1_0(model.receivers@[k], json)),
        decreases model.receivers.len() - i,
    {
        list.push(ReceiverJson::V1_0(model.receivers[i].to_v1_0()));
        i = i + 1;
    }
    Ok(list)
}

/// The receiver with the identifier.
pub fn get_receiver(api: &str, id: u128, model: &Model) -> (r: Result<ReceiverJson, ServiceError>)
    ensures
        r is Ok <==> version_error(api@) is None && lookup(model.receivers@, id) is Some,
        r matches Ok(ReceiverJson::V1_0(json)) ==> is_receiver_v1_0(
            lookup(model.receivers@, id)->0,
            json,
        ),
        r matches Err(e) ==> Some(e@) == (if version_error(api@) is Some {
            version_error(api@)
        } else {
            Some((Status::NotFound, Some(missing_message("Receiver"@, id))))
        }),
{
    let _ = match parse_api_version(api) {
        Ok(version) => version,
        Err(e) => {
            return Err(e);
        },
    };
    match model.get_receiver(id) {
        Ok(receiver) => Ok(ReceiverJson::V1_0(receiver.to_v1_0())),
        Err(_) => Err(missing("Receiver", id)),
    }
}

/// All senders, in the order of the model.
pub fn get_senders(api: &str, model: &Model) -> (r: Result<Vec<SenderJson>, ServiceError>)
    ensures
        r is Ok <==> version_error(api@) is None,
        r matches Err(e) ==> Some(e@) == version_error(api@),
        r matches Ok(list) ==> lists_senders(*model, list@),
{
    let _ = match parse_api_version(api) {
        Ok(version) => version,
        Err(e) => {
            return Err(e);
        },
    };
    let mut list: Vec<SenderJson> = Vec::new();
    let mut i: usize = 0;
    while i < model.senders.len()
        invariant
            i <= model.senders.len(),
            list@.len() == i,
            forall|k: int|
                0 <= k < i ==> (#[trigger] list@[k] matches SenderJson::V1_0(json)
                    && is_sender_v1_0(model.senders@[k], json)),
        decreases model.senders.len() - i,
    {
        list.push(SenderJson::V1_0(model.senders[i].to_v1_0()));
        i = i + 1;
    }
    Ok(list)
}

/// The sender with the identifier.
pub fn get_sender(api: &str, id: u128, model: &Model) -> (r: Result<SenderJson, ServiceError>)
    ensures
        r is Ok <==> version_error(api@) is None && lookup(model.senders@, id) is Some,
        r matches Ok(SenderJson::V1_0(json)) ==> is_sender_v1_0(lookup(model.senders@, id)->0, json),
        r matches Err(e) ==> Some(e@) == (if version_error(api@) is Some {
            version_error(api@)
        } else {
            Some((Status::NotFound, Some(missing_message("Sender"@, id))))
        }),
{
    let _ = match parse_api_version(api) {
        Ok(version) => version,
        Err(e) => {
            return Err(e);
        },
    };
    match model.get_sender(id) {
        Ok(sender) => Ok(SenderJson::V1_0(sender.to_v1_0())),
        Err(_) => Err(missing("Sender", id)),
    }
}

/// All sources, in the order of the model.
pub fn get_sources(api: &str, model: &Model) -> (r: Result<Vec<SourceJson>, ServiceError>)
    ensures
        r is Ok <==> version_error(api@) is None,
        r matches Err(e) ==> Some(e@) == version_error(api@),
        r matches Ok(list) ==> lists_sources(*model, list@),
{
    let _ = match parse_api_version(api) {
        Ok(version) => version,
        Err(e) => {
            return Err(e);
        },
    };
    let mut list: Vec<SourceJson> = Vec::new();
    let mut i: usize = 0;
    while i < model.sources.len()
        invariant
            i <= model.sources.len(),
            list@.len() == i,
            forall|k: int|
                0 <= k < i ==> (#[trigger] list@[k] matches SourceJson::V1_0(json)
                    && is_source_v1_0(model.sources@[k], json)),
        decreases model.sources.len() - i,
    {
        list.push(SourceJson::V1_0(model.sources[i].to_v1_0()));
        i = i + 1;
    }
    Ok(list)
}

/// The source with the identifier.
pub fn get_source(api: &str, id: u128, model: &Model) -> (r: Result<SourceJson, ServiceError>)
    ensures
        r is Ok <==> version_error(api@) is None && lookup(model.sources@, id) is Some,
        r matches Ok(SourceJson::V1_0(json)) ==> is_source_v1_0(lookup(model.sources@, id)->0, json),
        r matches Err(e) ==> Some(e@) == (if version_error(api@) is Some {
            version_error(api@)
        } else {
            Some((Status::NotFound, Some(missing_message("Source"@, id))))
        }),
{
    let _ = match parse_api_version(api) {
        Ok(version) => version,
        Err(e) => {
            return Err(e);
        },
    };
    match model.get_source(id) {
        Ok(source) => Ok(SourceJson::V1_0(source.to_v1_0())),
        Err(_) => Err(missing("Source", id)),
    }
}

/// All flows, in the order of the model.
pub fn get_flows(api: &str, model: &Model) -> (r: Result<Vec<FlowJson>, ServiceError>)
    ensures
        r is Ok <==> version_error(api@) is None,
        r matches Err(e) ==> Some(e@) == version_error(api@),
        r matches Ok(list) ==> lists_flows(*model, list@),
{
    let _ = match parse_api_version(api) {
        Ok(version) => version,
        Err(e) => {
            return Err(e);
        },
    };
    let mut list: Vec<FlowJson> = Vec::new();
    let mut i: usize = 0;
    while i < model.flows.len()
        invariant
            i <= model.flows.len(),
            list@.len() == i,
            forall|k: int|
                0 <= k < i ==> (#[trigger] list@[k] matches FlowJson::V1_0(json) && is_flow_v1_0(
                    model.flows@[k],
                    json,
                )),
        decreases model.flows.len() - i,
    {
        list.push(FlowJson::V1_0(model.flows[i].to_v1_0()));
        i = i + 1;
    }
    Ok(list)
}

/// The flow with the identifier.
pub fn get_flow(api: &str, id: u128, model: &Model) -> (r: Result<FlowJson, ServiceError>)
    ensures
        r is Ok <==> version_error(api@) is None && lookup(model.flows@, id) is Some,
        r matches Ok(FlowJson::V1_0(json)) ==> is_flow_v1_0(lookup(model.flows@, id)->0, json),
        r matches Err(e) ==> Some(e@) == (if version_error(api@) is Some {
            version_error(api@)
        } else {
            Some((Status::NotFound, Some(missing_message("Flow"@, id))))
        }),
{
    let _ = match parse_api_version(api) {
        Ok(version) => version,
        Err(e) => {
            return Err(e);
        },
    };
    match model.get_flow(id) {
        Ok(flow) => Ok(FlowJson::V1_0(flow.to_v1_0())),
        Err(_) => Err(missing("Flow", id)),
    }
}

} // verus!
