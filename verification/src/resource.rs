//! The six kinds of resource, their builders, and their JSON forms.

use vstd::prelude::*;

use crate::ident::new_v4;
use crate::tags::{keys_ascending, texts, to_strings, with_tag, Tags, TagsView};
use crate::tai::TaiTime;

pub use device::{Device, DeviceBuilder, DeviceJson, DeviceType};
pub use flow::{Flow, FlowBuilder, FlowJson};
pub use node::{Node, NodeBuilder, NodeJson, NodeService};
pub use receiver::{Receiver, ReceiverBuilder, ReceiverJson};
pub use sender::{Sender, SenderBuilder, SenderJson};
pub use source::{Source, SourceBuilder, SourceJson};

pub mod device;
pub mod flow;
pub mod node;
pub mod receiver;
pub mod sender;
pub mod source;

verus! {

/// What a source, flow or receiver carries.
#[derive(Debug, Clone, Copy, PartialEq, Eq, Structural)]
pub enum Format {
    Video,
    Audio,
    Data,
}

/// How a sender or receiver moves its flow.
#[derive(Debug, Clone, Copy, PartialEq, Eq, Structural)]
pub enum Transport {
    Rtp,
    RtpUnicast,
    RtpMulticast,
    Dash,
}

/// The URN of a format.
pub open spec fn format_urn(format: Format) -> Seq<char> {
    match format {
        Format::Video => "urn:x-nmos:format:video"@,
        Format::Audio => "urn:x-nmos:format:audio"@,
        Format::Data => "urn:x-nmos:format:data"@,
    }
}

/// The URN of a transport.
pub open spec fn transport_urn(transport: Transport) -> Seq<char> {
    match transport {
        Transport::Rtp => "urn:x-nmos:transport:rtp"@,
        Transport::RtpUnicast => "urn:x-nmos:transport:rtp.ucast"@,
        Transport::RtpMulticast => "urn:x-nmos:transport:rtp.mcast"@,
        Transport::Dash => "urn:x-nmos:transport:dash"@,
    }
}

impl Format {
    /// The URN of the format.
    pub fn to_string(&self) -> (s: String)
        ensures
            s@ == format_urn(*self),
    {
        match self {
            Format::Video => String::from_str("urn:x-nmos:format:video"),
            Format::Audio => String::from_str("urn:x-nmos:format:audio"),
            Format::Data => String::from_str("urn:x-nmos:format:data"),
        }
    }
}

impl Transport {
    /// The URN of the transport.
    pub fn to_string(&self) -> (s: String)
        ensures
            s@ == transport_urn(*self),
    {
        match self {
            Transport::Rtp => String::from_str("urn:x-nmos:transport:rtp"),
            Transport::RtpUnicast => String::from_str("urn:x-nmos:transport:rtp.ucast"),
            Transport::RtpMulticast => String::from_str("urn:x-nmos:transport:rtp.mcast"),
            Transport::Dash => String::from_str("urn:x-nmos:transport:dash"),
        }
    }
}

/// The six kinds of resource, in the order in which they are registered.
#[derive(Debug, Clone, Copy, PartialEq, Eq, Structural)]
pub enum ResourceKind {
    Node,
    Device,
    Source,
    Flow,
    Sender,
    Receiver,
}

/// The name of a kind in a registration request.
pub open spec fn kind_name(kind: ResourceKind) -> Seq<char> {
    match kind {
        ResourceKind::Node => "node"@,
        ResourceKind::Device => "device"@,
        ResourceKind::Source => "source"@,
        ResourceKind::Flow => "flow"@,
        ResourceKind::Sender => "sender"@,
        ResourceKind::Receiver => "receiver"@,
    }
}

/// The place of a kind in the order of registration.
pub open spec fn kind_rank(kind: ResourceKind) -> int {
    match kind {
        ResourceKind::Node => 0,
        ResourceKind::Device => 1,
        ResourceKind::Source => 2,
        ResourceKind::Flow => 3,
        ResourceKind::Sender => 4,
        ResourceKind::Receiver => 5,
    }
}

impl ResourceKind {
    /// The name of the kind in a registration request.
    pub fn to_string(&self) -> (s: String)
        ensures
            s@ == kind_name(*self),
    {
        match self {
            ResourceKind::Node => String::from_str("node"),
            ResourceKind::Device => String::from_str("device"),
            ResourceKind::Source => String::from_str("source"),
            ResourceKind::Flow => String::from_str("flow"),
            ResourceKind::Sender => String::from_str("sender"),
            ResourceKind::Receiver => String::from_str("receiver"),
        }
    }
}

/// Collects what every resource has, before the resource is made.
#[derive(Debug)]
#[must_use]
pub struct ResourceCoreBuilder {
    pub label: String,
    pub description: Option<String>,
    pub tags: Tags,
}

/// What every resource has.
#[derive(Debug)]
pub struct ResourceCore {
    pub id: u128,
    pub version: TaiTime,
    pub label: String,
    pub description: String,
    pub tags: Tags,
}

/// The description that a builder gives to its resource: empty where none
/// was set.
pub open spec fn description_or_empty(description: Option<String>) -> Seq<char> {
    match description {
        Some(text) => text@,
        None => Seq::<char>::empty(),
    }
}

impl ResourceCoreBuilder {
    /// A builder with a label, no description and no tags.
    pub fn new(label: &str) -> (b: Self)
        ensures
            b.label@ == label@,
            b.description is None,
            b.tags@ == TagsView::empty(),
    {
        Self { label: label.to_owned(), description: None, tags: Tags::new() }
    }

    /// Sets the description.
    pub fn description(self, description: &str) -> (b: Self)
        ensures
            b.label == self.label,
            b.description matches Some(text) && text@ == description@,
            b.tags == self.tags,
    {
        Self { label: self.label, description: Some(description.to_owned()), tags: self.tags }
    }

    /// Puts `values` under the tag `key`, in place of what the key had.
    pub fn tag(self, key: &str, values: &[&str]) -> (b: Self)
        ensures
            b.label == self.label,
            b.description == self.description,
            b.tags@ == with_tag(self.tags@, key@, Seq::new(values@.len(), |i: int| values@[i]@)),
            keys_ascending(b.tags@),
    {
        let values = to_strings(values);
        Self {
            label: self.label,
            description: self.description,
            tags: self.tags.with(key.to_owned(), values),
        }
    }

    /// The core with the given identifier and version stamp.
    pub fn build_with(self, id: u128, version: TaiTime) -> (core: ResourceCore)
        ensures
            core.id == id,
            core.version == version,
            core.label == self.label,
            core.description@ == description_or_empty(self.description),
            core.tags == self.tags,
    {
        let description = match self.description {
            Some(text) => text,
            None => String::new(),
        };
        ResourceCore { id, version, label: self.label, description, tags: self.tags }
    }

    /// The core with a fresh random identifier and the current time as its
    /// version.
    #[must_use]
    pub fn build(self) -> (core: ResourceCore)
        ensures
            core.label == self.label,
            core.description@ == description_or_empty(self.description),
            core.tags == self.tags,
    {
        let id = new_v4();
        let version = TaiTime::now();
        self.build_with(id, version)
    }
}

impl ResourceCore {
    /// A builder with a label, no description and no tags.
    pub fn builder(label: &str) -> (b: ResourceCoreBuilder)
        ensures
            b.label@ == label@,
            b.description is None,
            b.tags@ == TagsView::empty(),
    {
        ResourceCoreBuilder::new(label)
    }
}

/// Resources gathered before a model is made of them, each kind in the order
/// of insertion.
#[derive(Debug)]
pub struct ResourceBundle {
    pub nodes: Vec<Node>,
    pub devices: Vec<Device>,
    pub sources: Vec<Source>,
    pub flows: Vec<Flow>,
    pub senders: Vec<Sender>,
    pub receivers: Vec<Receiver>,
}

impl ResourceBundle {
    /// A bundle without resources.
    #[must_use]
    pub fn new() -> (b: Self)
        ensures
            b.nodes@.len() == 0,
            b.devices@.len() == 0,
            b.sources@.len() == 0,
            b.flows@.len() == 0,
            b.senders@.len() == 0,
            b.receivers@.len() == 0,
    {
        Self {
            nodes: Vec::new(),
            devices: Vec::new(),
            sources: Vec::new(),
            flows: Vec::new(),
            senders: Vec::new(),
            receivers: Vec::new(),
        }
    }

    /// Adds a node.
    pub fn insert_node(&mut self, node: Node)
        ensures
            *final(self) == (ResourceBundle { nodes: final(self).nodes, ..*old(self) }),
            final(self).nodes@ == old(self).nodes@.push(node),
    {
        self.nodes.push(node);
    }

    /// Adds a device.
    pub fn insert_device(&mut self, device: Device)
        ensures
            *final(self) == (ResourceBundle { devices: final(self).devices, ..*old(self) }),
            final(self).devices@ == old(self).devices@.push(device),
    {
        self.devices.push(device);
    }

    /// Adds a source.
    pub fn insert_source(&mut self, source: Source)
        ensures
            *final(self) == (ResourceBundle { sources: final(self).sources, ..*old(self) }),
            final(self).sources@ == old(self).sources@.push(source),
    {
        self.sources.push(source);
    }

    /// Adds a flow.
    pub fn insert_flow(&mut self, flow: Flow)
        ensures
            *final(self) == (ResourceBundle { flows: final(self).flows, ..*old(self) }),
            final(self).flows@ == old(self).flows@.push(flow),
    {
        self.flows.push(flow);
    }

    /// Adds a sender.
    pub fn insert_sender(&mut self, sender: Sender)
        ensures
            *final(self) == (ResourceBundle { senders: final(self).senders, ..*old(self) }),
            final(self).senders@ == old(self).senders@.push(sender),
    {
        self.senders.push(sender);
    }

    /// Adds a receiver.
    pub fn insert_receiver(&mut self, receiver: Receiver)
        ensures
            *final(self) == (ResourceBundle { receivers: final(self).receivers, ..*old(self) }),
            final(self).receivers@ == old(self).receivers@.push(receiver),
    {
        self.receivers.push(receiver);
    }
}

/// The hyphenated text of each identifier of `ids`.
pub open spec fn id_texts(ids: Seq<u128>) -> Seq<Seq<char>> {
    Seq::new(ids.len(), |i: int| crate::ident::hyphenated(ids[i]))
}

/// The hyphenated text of each identifier of `ids`.
pub fn ids_to_strings(ids: &Vec<u128>) -> (r: Vec<String>)
    ensures
        texts(r@) == id_texts(ids@),
{
    let mut r: Vec<String> = Vec::new();
    let mut i: usize = 0;
    while i < ids.len()
        invariant
            i <= ids.len(),
            r@.len() == i,
            forall|j: int| 0 <= j < i ==> r@[j]@ == crate::ident::hyphenated(ids@[j]),
        decreases ids.len() - i,
    {
        r.push(crate::ident::to_hyphenated(ids[i]));
        i = i + 1;
    }
    assert(texts(r@) =~= id_texts(ids@));
    r
}

} // verus!
