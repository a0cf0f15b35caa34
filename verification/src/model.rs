//! The resources of a node, by kind and in the order in which they came.

use vstd::prelude::*;

use crate::error::Error;
use crate::resource::{
    Device, Flow, Node, Receiver, ResourceBundle, ResourceKind, Sender, Source,
};
use crate::store::{
    collected, distinct, find, holds, lemma_collected, lemma_kept, lemma_stored, lookup, put,
    put_all, stored, Identified,
};

verus! {

impl Identified for Node {
    open spec fn ident(&self) -> u128 {
        self.core.id
    }

    fn id(&self) -> u128 {
        self.core.id
    }
}

impl Identified for Device {
    open spec fn ident(&self) -> u128 {
        self.core.id
    }

    fn id(&self) -> u128 {
        self.core.id
    }
}

impl Identified for Source {
    open spec fn ident(&self) -> u128 {
        self.core.id
    }

    fn id(&self) -> u128 {
        self.core.id
    }
}

impl Identified for Flow {
    open spec fn ident(&self) -> u128 {
        self.core.id
    }

    fn id(&self) -> u128 {
        self.core.id
    }
}

impl Identified for Sender {
    open spec fn ident(&self) -> u128 {
        self.core.id
    }

    fn id(&self) -> u128 {
        self.core.id
    }
}

impl Identified for Receiver {
    open spec fn ident(&self) -> u128 {
        self.core.id
    }

    fn id(&self) -> u128 {
        self.core.id
    }
}

/// The resources of a node. Within a kind an identifier finds one resource;
/// the lists keep the order of first insertion.
#[derive(Debug)]
pub struct Model {
    pub nodes: Vec<Node>,
    pub devices: Vec<Device>,
    pub sources: Vec<Source>,
    pub flows: Vec<Flow>,
    pub senders: Vec<Sender>,
    pub receivers: Vec<Receiver>,
}

/// Whether the model holds a resource of the given kind and identifier.
pub open spec fn present(model: Model, kind: ResourceKind, id: u128) -> bool {
    match kind {
        ResourceKind::Node => holds(model.nodes@, id),
        ResourceKind::Device => holds(model.devices@, id),
        ResourceKind::Source => holds(model.sources@, id),
        ResourceKind::Flow => holds(model.flows@, id),
        ResourceKind::Sender => holds(model.senders@, id),
        ResourceKind::Receiver => holds(model.receivers@, id),
    }
}

/// A model that is `after` a resource of some kind and identifier came to a
/// model with unique identifiers has unique identifiers too, if no other kind
/// held the identifier.
pub proof fn lemma_unique_kept(before: Model, after: Model, kind: ResourceKind, id: u128)
    requires
        before.unique_ids(),
        !before.named_elsewhere(kind, id),
        after.distinct_ids(),
        forall|k: ResourceKind, x: u128| #[trigger]
            present(after, k, x) <==> present(before, k, x) || (k == kind && x == id),
    ensures
        after.unique_ids(),
{
    assert forall|x: u128, a: ResourceKind, b: ResourceKind| #[trigger]
        present(after, a, x) && #[trigger] present(after, b, x) implies a == b by {
        if a != b {
            if x == id && a == kind {
                assert(present(before, b, x));
            } else if x == id && b == kind {
                assert(present(before, a, x));
            } else {
                assert(present(before, a, x) && present(before, b, x));
            }
        }
    }
}

impl Model {
    /// Whether no identifier names two resources, be they of one kind or of
    /// two.
    pub open spec fn unique_ids(&self) -> bool {
        &&& self.distinct_ids()
        &&& forall|id: u128, a: ResourceKind, b: ResourceKind| #[trigger]
            present(*self, a, id) && #[trigger] present(*self, b, id) ==> a == b
    }

    /// Whether a kind other than `kind` holds a resource with the identifier.
    pub open spec fn named_elsewhere(&self, kind: ResourceKind, id: u128) -> bool {
        exists|other: ResourceKind| other != kind && #[trigger] present(*self, other, id)
    }

    /// Whether no two resources of a kind share an identifier.
    pub open spec fn distinct_ids(&self) -> bool {
        &&& distinct(self.nodes@)
        &&& distinct(self.devices@)
        &&& distinct(self.sources@)
        &&& distinct(self.flows@)
        &&& distinct(self.senders@)
        &&& distinct(self.receivers@)
    }

    /// Whether every resource that refers to a parent finds it in the model:
    /// a device its node; a source, a sender and a receiver their device; a
    /// flow its source; a sender its flow.
    pub open spec fn parents_present(&self) -> bool {
        &&& forall|i: int|
            0 <= i < self.devices@.len() ==> holds(self.nodes@, (#[trigger] self.devices@[i]).node_id)
        &&& forall|i: int|
            0 <= i < self.sources@.len() ==> holds(
                self.devices@,
                (#[trigger] self.sources@[i]).device_id,
            )
        &&& forall|i: int|
            0 <= i < self.flows@.len() ==> holds(self.sources@, (#[trigger] self.flows@[i]).source_id)
        &&& forall|i: int|
            0 <= i < self.senders@.len() ==> holds(
                self.devices@,
                (#[trigger] self.senders@[i]).device_id,
            ) && holds(self.flows@, self.senders@[i].flow_id)
        &&& forall|i: int|
            0 <= i < self.receivers@.len() ==> holds(
                self.devices@,
                (#[trigger] self.receivers@[i]).device_id,
            )
    }

    /// A model without resources.
    #[must_use]
    pub fn new() -> (m: Self)
        ensures
            m.nodes@.len() == 0,
            m.devices@.len() == 0,
            m.sources@.len() == 0,
            m.flows@.len() == 0,
            m.senders@.len() == 0,
            m.receivers@.len() == 0,
            m.unique_ids(),
            m.parents_present(),
    {
        Model {
            nodes: Vec::new(),
            devices: Vec::new(),
            sources: Vec::new(),
            flows: Vec::new(),
            senders: Vec::new(),
            receivers: Vec::new(),
        }
    }

    /// The model of the resources of a bundle. Where two resources of a kind
    /// share an identifier, the later one takes the place of the earlier.
    /// References to parents are not checked.
    #[must_use]
    pub fn from_resources(resource_bundle: ResourceBundle) -> (m: Self)
        ensures
            m.nodes@ == collected(resource_bundle.nodes@),
            m.devices@ == collected(resource_bundle.devices@),
            m.sources@ == collected(resource_bundle.sources@),
            m.flows@ == collected(resource_bundle.flows@),
            m.senders@ == collected(resource_bundle.senders@),
            m.receivers@ == collected(resource_bundle.receivers@),
            m.distinct_ids(),
    {
        proof {
            lemma_collected(resource_bundle.nodes@);
            lemma_collected(resource_bundle.devices@);
            lemma_collected(resource_bundle.sources@);
            lemma_collected(resource_bundle.flows@);
            lemma_collected(resource_bundle.senders@);
            lemma_collected(resource_bundle.receivers@);
        }
        Model {
            nodes: put_all(resource_bundle.nodes),
            devices: put_all(resource_bundle.devices),
            sources: put_all(resource_bundle.sources),
            flows: put_all(resource_bundle.flows),
            senders: put_all(resource_bundle.senders),
            receivers: put_all(resource_bundle.receivers),
        }
    }

    /// Puts a node into the model. This always succeeds.
    pub fn insert_node(&mut self, node: Node) -> (r: Result<(), Error>)
        ensures
            r is Ok,
            *final(self) == (Model { nodes: final(self).nodes, ..*old(self) }),
            final(self).nodes@ == stored(old(self).nodes@, node),
            lookup(final(self).nodes@, node.core.id) == Some(node),
            final(self).nodes@.contains(node),
            old(self).distinct_ids() ==> final(self).distinct_ids(),
            old(self).parents_present() ==> final(self).parents_present(),
            old(self).unique_ids() && !old(self).named_elsewhere(ResourceKind::Node, node.core.id)
                ==> final(self).unique_ids(),
    {
        proof {
            lemma_stored(self.nodes@, node);
        }
        put(&mut self.nodes, node);
        proof {
            if old(self).unique_ids() && !old(self).named_elsewhere(ResourceKind::Node, node.core.id) {
                lemma_unique_kept(*old(self), *self, ResourceKind::Node, node.core.id);
            }
        }
        Ok(())
    }

    /// Puts a device into the model, if the model holds its node.
    pub fn insert_device(&mut self, device: Device) -> (r: Result<(), Error>)
        ensures
            r is Ok <==> holds(old(self).nodes@, device.node_id),
            r is Err ==> r == Err::<(), Error>(Error::MissingParent) && *final(self) == *old(self),
            r is Ok ==> {
                &&& *final(self) == (Model { devices: final(self).devices, ..*old(self) })
                &&& final(self).devices@ == stored(old(self).devices@, device)
                &&& lookup(final(self).devices@, device.core.id) == Some(device)
                &&& final(self).devices@.contains(device)
            },
            old(self).distinct_ids() ==> final(self).distinct_ids(),
            old(self).parents_present() ==> final(self).parents_present(),
            old(self).unique_ids() && !old(self).named_elsewhere(ResourceKind::Device, device.core.id)
                ==> final(self).unique_ids(),
    {
        if find(&self.nodes, device.node_id).is_none() {
            return Err(Error::MissingParent);
        }
        proof {
            lemma_stored(self.devices@, device);
            lemma_kept(self.devices@, device);
        }
        put(&mut self.devices, device);
        proof {
            if old(self).unique_ids() && !old(self).named_elsewhere(ResourceKind::Device, device.core.id) {
                lemma_unique_kept(*old(self), *self, ResourceKind::Device, device.core.id);
            }
        }
        Ok(())
    }

    /// Puts a source into the model, if the model holds its device.
    pub fn insert_source(&mut self, source: Source) -> (r: Result<(), Error>)
        ensures
            r is Ok <==> holds(old(self).devices@, source.device_id),
            r is Err ==> r == Err::<(), Error>(Error::MissingParent) && *final(self) == *old(self),
            r is Ok ==> {
                &&& *final(self) == (Model { sources: final(self).sources, ..*old(self) })
                &&& final(self).sources@ == stored(old(self).sources@, source)
                &&& lookup(final(self).sources@, source.core.id) == Some(source)
                &&& final(self).sources@.contains(source)
            },
            old(self).distinct_ids() ==> final(self).distinct_ids(),
            old(self).parents_present() ==> final(self).parents_present(),
            old(self).unique_ids() && !old(self).named_elsewhere(ResourceKind::Source, source.core.id)
                ==> final(self).unique_ids(),
    {
        if find(&self.devices, source.device_id).is_none() {
            return Err(Error::MissingParent);
        }
        proof {
            lemma_stored(self.sources@, source);
            lemma_kept(self.sources@, source);
        }
        put(&mut self.sources, source);
        proof {
            if old(self).unique_ids() && !old(self).named_elsewhere(ResourceKind::Source, source.core.id) {
                lemma_unique_kept(*old(self), *self, ResourceKind::Source, source.core.id);
            }
        }
        Ok(())
    }

    /// Puts a flow into the model, if the model holds its source.
    pub fn insert_flow(&mut self, flow: Flow) -> (r: Result<(), Error>)
        ensures
            r is Ok <==> holds(old(self).sources@, flow.source_id),
            r is Err ==> r == Err::<(), Error>(Error::MissingParent) && *final(self) == *old(self),
            r is Ok ==> {
                &&& *final(self) == (Model { flows: final(self).flows, ..*old(self) })
                &&& final(self).flows@ == stored(old(self).flows@, flow)
                &&& lookup(final(self).flows@, flow.core.id) == Some(flow)
                &&& final(self).flows@.contains(flow)
            },
            old(self).distinct_ids() ==> final(self).distinct_ids(),
            old(self).parents_present() ==> final(self).parents_present(),
            old(self).unique_ids() && !old(self).named_elsewhere(ResourceKind::Flow, flow.core.id)
                ==> final(self).unique_ids(),
    {
        if find(&self.sources, flow.source_id).is_none() {
            return Err(Error::MissingParent);
        }
        proof {
            lemma_stored(self.flows@, flow);
            lemma_kept(self.flows@, flow);
        }
        put(&mut self.flows, flow);
        proof {
            if old(self).unique_ids() && !old(self).named_elsewhere(ResourceKind::Flow, flow.core.id) {
                lemma_unique_kept(*old(self), *self, ResourceKind::Flow, flow.core.id);
            }
        }
        Ok(())
    }

    /// Puts a sender into the model, if the model holds its device and its
    /// flow.
    pub fn insert_sender(&mut self, sender: Sender) -> (r: Result<(), Error>)
        ensures
            r is Ok <==> holds(old(self).devices@, sender.device_id) && holds(
                old(self).flows@,
                sender.flow_id,
            ),
            r is Err ==> r == Err::<(), Error>(Error::MissingParent) && *final(self) == *old(self),
            r is Ok ==> {
                &&& *final(self) == (Model { senders: final(self).senders, ..*old(self) })
                &&& final(self).senders@ == stored(old(self).senders@, sender)
                &&& lookup(final(self).senders@, sender.core.id) == Some(sender)
                &&& final(self).senders@.contains(sender)
            },
            old(self).distinct_ids() ==> final(self).distinct_ids(),
            old(self).parents_present() ==> final(self).parents_present(),
            old(self).unique_ids() && !old(self).named_elsewhere(ResourceKind::Sender, sender.core.id)
                ==> final(self).unique_ids(),
    {
        if find(&self.devices, sender.device_id).is_none() {
            return Err(Error::MissingParent);
        }
        if find(&self.flows, sender.flow_id).is_none() {
            return Err(Error::MissingParent);
        }
        proof {
            lemma_stored(self.senders@, sender);
            lemma_kept(self.senders@, sender);
        }
        put(&mut self.senders, sender);
        proof {
            if old(self).unique_ids() && !old(self).named_elsewhere(ResourceKind::Sender, sender.core.id) {
                lemma_unique_kept(*old(self), *self, ResourceKind::Sender, sender.core.id);
            }
        }
        Ok(())
    }

    /// Puts a receiver into the model, if the model holds its device.
    pub fn insert_receiver(&mut self, receiver: Receiver) -> (r: Result<(), Error>)
        ensures
            r is Ok <==> holds(old(self).devices@, receiver.device_id),
            r is Err ==> r == Err::<(), Error>(Error::MissingParent) && *final(self) == *old(self),
            r is Ok ==> {
                &&& *final(self) == (Model { receivers: final(self).receivers, ..*old(self) })
                &&& final(self).receivers@ == stored(old(self).receivers@, receiver)
                &&& lookup(final(self).receivers@, receiver.core.id) == Some(receiver)
                &&& final(self).receivers@.contains(receiver)
            },
            old(self).distinct_ids() ==> final(self).distinct_ids(),
            old(self).parents_present() ==> final(self).parents_present(),
            old(self).unique_ids() && !old(self).named_elsewhere(ResourceKind::Receiver, receiver.core.id)
                ==> final(self).unique_ids(),
    {
        if find(&self.devices, receiver.device_id).is_none() {
            return Err(Error::MissingParent);
        }
        proof {
            lemma_stored(self.receivers@, receiver);
            lemma_kept(self.receivers@, receiver);
        }
        put(&mut self.receivers, receiver);
        proof {
            if old(self).unique_ids() && !old(self).named_elsewhere(ResourceKind::Receiver, receiver.core.id) {
                lemma_unique_kept(*old(self), *self, ResourceKind::Receiver, receiver.core.id);
            }
        }
        Ok(())
    }

    /// The node with the identifier.
    pub fn get_node(&self, id: u128) -> (r: Result<&Node, Error>)
        ensures
            r is Ok <==> holds(self.nodes@, id),
            r matches Ok(node) ==> lookup(self.nodes@, id) == Some(*node),
            r matches Err(e) ==> e == Error::NotFound,
    {
        match find(&self.nodes, id) {
            Some(i) => Ok(&self.nodes[i]),
            None => Err(Error::NotFound),
        }
    }

    /// The device with the identifier.
    pub fn get_device(&self, id: u128) -> (r: Result<&Device, Error>)
        ensures
            r is Ok <==> holds(self.devices@, id),
            r matches Ok(device) ==> lookup(self.devices@, id) == Some(*device),
            r matches Err(e) ==> e == Error::NotFound,
    {
        match find(&self.devices, id) {
            Some(i) => Ok(&self.devices[i]),
            None => Err(Error::NotFound),
        }
    }

    /// The source with the identifier.
    pub fn get_source(&self, id: u128) -> (r: Result<&Source, Error>)
        ensures
            r is Ok <==> holds(self.sources@, id),
            r matches Ok(source) ==> lookup(self.sources@, id) == Some(*source),
            r matches Err(e) ==> e == Error::NotFound,
    {
        match find(&self.sources, id) {
            Some(i) => Ok(&self.sources[i]),
            None => Err(Error::NotFound),
        }
    }

    /// The flow with the identifier.
    pub fn get_flow(&self, id: u128) -> (r: Result<&Flow, Error>)
        ensures
            r is Ok <==> holds(self.flows@, id),
            r matches Ok(flow) ==> lookup(self.flows@, id) == Some(*flow),
            r matches Err(e) ==> e == Error::NotFound,
    {
        match find(&self.flows, id) {
            Some(i) => Ok(&self.flows[i]),
            None => Err(Error::NotFound),
        }
    }

    /// The sender with the identifier.
    pub fn get_sender(&self, id: u128) -> (r: Result<&Sender, Error>)
        ensures
            r is Ok <==> holds(self.senders@, id),
            r matches Ok(sender) ==> lookup(self.senders@, id) == Some(*sender),
            r matches Err(e) ==> e == Error::NotFound,
    {
        match find(&self.senders, id) {
            Some(i) => Ok(&self.senders[i]),
            None => Err(Error::NotFound),
        }
    }

    /// The receiver with the identifier.
    pub fn get_receiver(&self, id: u128) -> (r: Result<&Receiver, Error>)
        ensures
            r is Ok <==> holds(self.receivers@, id),
            r matches Ok(receiver) ==> lookup(self.receivers@, id) == Some(*receiver),
            r matches Err(e) ==> e == Error::NotFound,
    {
        match find(&self.receivers, id) {
            Some(i) => Ok(&self.receivers[i]),
            None => Err(Error::NotFound),
        }
    }

    /// The nodes, in the order of first insertion.
    pub fn list_nodes(&self) -> (r: &Vec<Node>)
        ensures
            r@ == self.nodes@,
    {
        &self.nodes
    }

    /// The devices, in the order of first insertion.
    pub fn list_devices(&self) -> (r: &Vec<Device>)
        ensures
            r@ == self.devices@,
    {
        &self.devices
    }

    /// The sources, in the order of first insertion.
    pub fn list_sources(&self) -> (r: &Vec<Source>)
        ensures
            r@ == self.sources@,
    {
        &self.sources
    }

    /// The flows, in the order of first insertion.
    pub fn list_flows(&self) -> (r: &Vec<Flow>)
        ensures
            r@ == self.flows@,
    {
        &self.flows
    }

    /// The senders, in the order of first insertion.
    pub fn list_senders(&self) -> (r: &Vec<Sender>)
        ensures
            r@ == self.senders@,
    {
        &self.senders
    }

    /// The receivers, in the order of first insertion.
    pub fn list_receivers(&self) -> (r: &Vec<Receiver>)
        ensures
            r@ == self.receivers@,
    {
        &self.receivers
    }
}

} // verus!
