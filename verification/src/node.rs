//! The node as a whole: how it is put together, what it checks before it
//! starts, and what its tasks decide while it runs.

use vstd::prelude::*;

use crate::error::Error;
use crate::mdns::{discovered, NmosMdnsEvent, NmosMdnsRegistry};
use crate::model::Model;
use crate::registry::{pushed, RegistryTable};
use crate::resource;
use crate::resource::ResourceBundle;
use crate::service::{answers, respond, Response};
use crate::store::collected;

verus! {

/// The TCP port on which the Node API listens and which DNS-SD advertises.
pub const NODE_PORT: u16 = 3000;

/// Milliseconds that the mDNS adapter sleeps between two polls.
pub const MDNS_POLL_INTERVAL_MS: u64 = 100;

/// Collects the resources of a node, before the node is made.
#[derive(Debug)]
pub struct NodeBuilder {
    pub resource_bundle: ResourceBundle,
}

/// A node: its resources, ready to be served and registered.
#[derive(Debug)]
pub struct Node {
    model: Model,
}

/// What the mDNS adapter does next.
#[derive(Debug, Clone, Copy, PartialEq, Eq, Structural)]
pub enum MdnsTick {
    /// End the loop: nobody takes the events any more.
    Stop,
    /// Poll the event loops without waiting, then sleep for so many
    /// milliseconds.
    Poll(u64),
}

/// What the mDNS adapter does next, given whether the receiver of its events
/// is gone.
pub fn mdns_tick(receiver_closed: bool) -> (tick: MdnsTick)
    ensures
        tick == (if receiver_closed {
            MdnsTick::Stop
        } else {
            MdnsTick::Poll(MDNS_POLL_INTERVAL_MS)
        }),
{
    if receiver_closed {
        MdnsTick::Stop
    } else {
        MdnsTick::Poll(MDNS_POLL_INTERVAL_MS)
    }
}

/// The table after an event of the mDNS adapter: a discovery that describes a
/// registry adds it; any other event leaves the table as it is.
pub open spec fn absorbed(
    table: Seq<crate::mdns::RegistryView>,
    event: NmosMdnsEvent,
) -> Seq<crate::mdns::RegistryView> {
    match event {
        NmosMdnsEvent::Discovery(_, Ok(discovery)) => match discovered(discovery) {
            Some(registry) => pushed(table, registry),
            None => table,
        },
        _ => table,
    }
}

/// Takes an event of the mDNS adapter into the table of registries.
pub fn absorb(table: &mut RegistryTable, event: NmosMdnsEvent)
    ensures
        final(table)@ == absorbed(old(table)@, event),
{
    if let NmosMdnsEvent::Discovery(_, Ok(discovery)) = event {
        if let Some(registry) = NmosMdnsRegistry::parse(&discovery) {
            table.push(registry);
        }
    }
}

impl NodeBuilder {
    /// A builder without resources.
    pub fn new() -> (b: Self)
        ensures
            b.resource_bundle.nodes@.len() == 0,
            b.resource_bundle.devices@.len() == 0,
            b.resource_bundle.sources@.len() == 0,
            b.resource_bundle.flows@.len() == 0,
            b.resource_bundle.senders@.len() == 0,
            b.resource_bundle.receivers@.len() == 0,
    {
        Self { resource_bundle: ResourceBundle::new() }
    }

    /// A builder with the resources of a bundle.
    pub fn from_resources(resource_bundle: ResourceBundle) -> (b: Self)
        ensures
            b.resource_bundle == resource_bundle,
    {
        Self { resource_bundle }
    }

    /// Adds a node.
    pub fn node(&mut self, node: resource::Node)
        ensures
            final(self).resource_bundle == (ResourceBundle {
                nodes: final(self).resource_bundle.nodes,
                ..old(self).resource_bundle
            }),
            final(self).resource_bundle.nodes@ == old(self).resource_bundle.nodes@.push(node),
    {
        self.resource_bundle.insert_node(node)
    }

    /// Adds a device.
    pub fn device(&mut self, device: resource::Device)
        ensures
            final(self).resource_bundle == (ResourceBundle {
                devices: final(self).resource_bundle.devices,
                ..old(self).resource_bundle
            }),
            final(self).resource_bundle.devices@ == old(self).resource_bundle.devices@.push(device),
    {
        self.resource_bundle.insert_device(device)
    }

    /// Adds a source.
    pub fn source(&mut self, source: resource::Source)
        ensures
            final(self).resource_bundle == (ResourceBundle {
                sources: final(self).resource_bundle.sources,
                ..old(self).resource_bundle
            }),
            final(self).resource_bundle.sources@ == old(self).resource_bundle.sources@.push(source),
    {
        self.resource_bundle.insert_source(source)
    }

    /// Adds a flow.
    pub fn flow(&mut self, flow: resource::Flow)
        ensures
            final(self).resource_bundle == (ResourceBundle {
                flows: final(self).resource_bundle.flows,
                ..old(self).resource_bundle
            }),
            final(self).resource_bundle.flows@ == old(self).resource_bundle.flows@.push(flow),
    {
        self.resource_bundle.insert_flow(flow)
    }

    /// Adds a sender.
    pub fn sender(&mut self, sender: resource::Sender)
        ensures
            final(self).resource_bundle == (ResourceBundle {
                senders: final(self).resource_bundle.senders,
                ..old(self).resource_bundle
            }),
            final(self).resource_bundle.senders@ == old(self).resource_bundle.senders@.push(sender),
    {
        self.resource_bundle.insert_sender(sender)
    }

    /// Adds a receiver.
    pub fn receiver(&mut self, receiver: resource::Receiver)
        ensures
            final(self).resource_bundle == (ResourceBundle {
                receivers: final(self).resource_bundle.receivers,
                ..old(self).resource_bundle
            }),
            final(self).resource_bundle.receivers@ == old(self).resource_bundle.receivers@.push(
                receiver,
            ),
    {
        self.resource_bundle.insert_receiver(receiver)
    }

    /// The node with the model of the resources that were collected.
    pub fn build(self) -> (node: Node)
        ensures
            node.model_of().nodes@ == collected(self.resource_bundle.nodes@),
            node.model_of().devices@ == collected(self.resource_bundle.devices@),
            node.model_of().sources@ == collected(self.resource_bundle.sources@),
            node.model_of().flows@ == collected(self.resource_bundle.flows@),
            node.model_of().senders@ == collected(self.resource_bundle.senders@),
            node.model_of().receivers@ == collected(self.resource_bundle.receivers@),
    {
        Node { model: Model::from_resources(self.resource_bundle) }
    }
}

impl Node {
    /// The model of the node.
    pub closed spec fn model_of(&self) -> Model {
        self.model
    }

    /// A builder without resources.
    pub fn builder() -> (b: NodeBuilder)
        ensures
            b.resource_bundle.nodes@.len() == 0,
            b.resource_bundle.devices@.len() == 0,
            b.resource_bundle.sources@.len() == 0,
            b.resource_bundle.flows@.len() == 0,
            b.resource_bundle.senders@.len() == 0,
            b.resource_bundle.receivers@.len() == 0,
    {
        NodeBuilder::new()
    }

    /// A builder with the resources of a bundle.
    pub fn builder_from_resources(resource_bundle: ResourceBundle) -> (b: NodeBuilder)
        ensures
            b.resource_bundle == resource_bundle,
    {
        NodeBuilder::from_resources(resource_bundle)
    }

    /// The model of the node.
    pub fn model(&self) -> (m: &Model)
        ensures
            *m == self.model_of(),
    {
        &self.model
    }

    /// Checks that the node can start: its model holds a node resource.
    /// Without one the start fails with `Fatal`.
    pub fn validate(&self) -> (r: Result<(), Error>)
        ensures
            r is Ok <==> self.model_of().nodes@.len() >= 1,
            r is Err ==> r == Err::<(), Error>(Error::Fatal),
    {
        if self.model.nodes.len() >= 1 {
            Ok(())
        } else {
            Err(Error::Fatal)
        }
    }

    /// The answer of the Node API to a request with the given method and
    /// target.
    pub fn respond(&self, method: &str, uri: &str) -> (response: Response)
        ensures
            answers(self.model_of(), method@, uri@, response),
    {
        respond(method, uri, &self.model)
    }
}

} // verus!
