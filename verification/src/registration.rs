//! Registration with a registry: which requests it takes, in which order, and
//! what the worker does next when a timer runs out or a request ends.

use vstd::prelude::*;

use crate::error::Error;
use crate::ident::{hyphenated, to_hyphenated};
use crate::json::render;
use crate::mdns::NmosMdnsRegistry;
use crate::model::{present, Model};
use crate::resource::device::is_device_v1_0;
use crate::resource::flow::is_flow_v1_0;
use crate::resource::node::is_node_v1_0;
use crate::resource::receiver::is_receiver_v1_0;
use crate::resource::sender::is_sender_v1_0;
use crate::resource::source::is_source_v1_0;
use crate::resource::{
    kind_name, kind_rank, Device, Flow, Node, Receiver, ResourceKind, Sender, Source,
};
use crate::store::{holds, lookup, Identified};
use crate::schema::is_04::v1_0_x::{ResourceData, ResourcePostRequest};

verus! {

/// Milliseconds that the worker waits before it looks for a registry again.
pub const RETRY_DELAY_MS: u64 = 5000;

/// Milliseconds between the answer to a heartbeat and the next heartbeat.
pub const HEARTBEAT_INTERVAL_MS: u64 = 5000;

/// A request to a registry: a POST to `url`, with a resource as its body or,
/// for a heartbeat, with no body.
#[derive(Debug)]
pub struct PostRequest {
    pub url: String,
    pub body: Option<ResourcePostRequest>,
}

/// The text of the body of a request: the JSON value of the resource
/// without any white space, or nothing for a heartbeat.
pub open spec fn body_text_of(body: Option<ResourcePostRequest>) -> Seq<char> {
    match body {
        Some(body) => render(body.value()),
        None => Seq::empty(),
    }
}

impl PostRequest {
    /// The text of the body of the request.
    pub fn body_text(&self) -> (text: String)
        ensures
            text@ == body_text_of(self.body),
    {
        match &self.body {
            Some(body) => body.to_json().to_string(),
            None => String::new(),
        }
    }
}

/// The URL that `reqwest::Url` gives for a reference against a base:
/// `Url::parse` of the base, then `join` of the reference, as text; `None`
/// where either reports an error.
pub uninterp spec fn joined_url(base: Seq<char>, reference: Seq<char>) -> Option<Seq<char>>;

/// Resolves a reference against a base URL with `reqwest::Url::parse` and
/// `Url::join`, and gives the text of the result.
#[verifier::external_body]
pub(crate) fn join_url(base: &str, reference: &str) -> (r: Option<String>)
    ensures
        r is Some == joined_url(base@, reference@) is Some,
        r matches Some(url) ==> Some(url@) == joined_url(base@, reference@),
{
    reqwest::Url::parse(base).ok().and_then(|url| url.join(reference).ok()).map(|url| url.to_string())
}

/// The base of version 1.0 of the registration API of a registry.
pub open spec fn api_base(registry_url: Seq<char>) -> Option<Seq<char>> {
    joined_url(registry_url, "v1.0/"@)
}

/// The URL to which resources are posted.
pub open spec fn resource_url(registry_url: Seq<char>) -> Option<Seq<char>> {
    match api_base(registry_url) {
        Some(base) => joined_url(base, "resource"@),
        None => None,
    }
}

/// The URL to which the heartbeats of a node are posted.
pub open spec fn heartbeat_url(registry_url: Seq<char>, node: u128) -> Option<Seq<char>> {
    match api_base(registry_url) {
        Some(base) => joined_url(base, "health/nodes/"@ + hyphenated(node)),
        None => None,
    }
}

/// The keys of the resources of a list, all of one kind.
pub open spec fn keys_of(kind: ResourceKind, ids: Seq<u128>) -> Seq<(ResourceKind, u128)> {
    Seq::new(ids.len(), |i: int| (kind, ids[i]))
}

/// The resources to register, by kind and identifier, in the order of
/// registration: the first node, then every device, source, flow, sender and
/// receiver, each kind in the order of the model. Empty where the model has
/// no node.
pub open spec fn plan_of(model: Model) -> Seq<(ResourceKind, u128)> {
    if model.nodes@.len() == 0 {
        Seq::empty()
    } else {
        seq![(ResourceKind::Node, model.nodes@[0].core.id)] + keys_of(
            ResourceKind::Device,
            Seq::new(model.devices@.len(), |i: int| model.devices@[i].core.id),
        ) + keys_of(
            ResourceKind::Source,
            Seq::new(model.sources@.len(), |i: int| model.sources@[i].core.id),
        ) + keys_of(
            ResourceKind::Flow,
            Seq::new(model.flows@.len(), |i: int| model.flows@[i].core.id),
        ) + keys_of(
            ResourceKind::Sender,
            Seq::new(model.senders@.len(), |i: int| model.senders@[i].core.id),
        ) + keys_of(
            ResourceKind::Receiver,
            Seq::new(model.receivers@.len(), |i: int| model.receivers@[i].core.id),
        )
    }
}

/// Whether `body` registers `node`.
pub open spec fn posts_node(node: Node, body: ResourcePostRequest) -> bool {
    &&& body.type_@ == kind_name(ResourceKind::Node)
    &&& body.data matches ResourceData::Node(json)
    &&& is_node_v1_0(node, json)
}

/// Whether `body` registers `device`.
pub open spec fn posts_device(device: Device, body: ResourcePostRequest) -> bool {
    &&& body.type_@ == kind_name(ResourceKind::Device)
    &&& body.data matches ResourceData::Device(json)
    &&& is_device_v1_0(device, json)
}

/// Whether `body` registers `source`.
pub open spec fn posts_source(source: Source, body: ResourcePostRequest) -> bool {
    &&& body.type_@ == kind_name(ResourceKind::Source)
    &&& body.data matches ResourceData::Source(json)
    &&& is_source_v1_0(source, json)
}

/// Whether `body` registers `flow`.
pub open spec fn posts_flow(flow: Flow, body: ResourcePostRequest) -> bool {
    &&& body.type_@ == kind_name(ResourceKind::Flow)
    &&& body.data matches ResourceData::Flow(json)
    &&& is_flow_v1_0(flow, json)
}

/// Whether `body` registers `sender`.
pub open spec fn posts_sender(sender: Sender, body: ResourcePostRequest) -> bool {
    &&& body.type_@ == kind_name(ResourceKind::Sender)
    &&& body.data matches ResourceData::Sender(json)
    &&& is_sender_v1_0(sender, json)
}

/// Whether `body` registers `receiver`.
pub open spec fn posts_receiver(receiver: Receiver, body: ResourcePostRequest) -> bool {
    &&& body.type_@ == kind_name(ResourceKind::Receiver)
    &&& body.data matches ResourceData::Receiver(json)
    &&& is_receiver_v1_0(receiver, json)
}

/// Whether `body` registers the resource of the model that has the given
/// kind and identifier.
pub open spec fn posts(
    model: Model,
    kind: ResourceKind,
    id: u128,
    body: ResourcePostRequest,
) -> bool {
    match kind {
        ResourceKind::Node => lookup(model.nodes@, id) matches Some(node)
            && posts_node(node, body),
        ResourceKind::Device => lookup(model.devices@, id) matches Some(device)
            && posts_device(device, body),
        ResourceKind::Source => lookup(model.sources@, id) matches Some(source)
            && posts_source(source, body),
        ResourceKind::Flow => lookup(model.flows@, id) matches Some(flow)
            && posts_flow(flow, body),
        ResourceKind::Sender => lookup(model.senders@, id) matches Some(sender)
            && posts_sender(sender, body),
        ResourceKind::Receiver => lookup(model.receivers@, id) matches Some(
            receiver,
        ) && posts_receiver(receiver, body),
    }
}

/// The operations of the registration API that a node uses.
#[derive(Debug, Clone, Copy, PartialEq, Eq, Structural)]
pub struct RegistrationApi;

impl RegistrationApi {
    /// The request that registers a node at `url`.
    pub fn register_node(url: &str, node: &Node) -> (request: PostRequest)
        ensures
            request.url@ == url@,
            request.body matches Some(body) && posts_node(*node, body),
    {
        PostRequest {
            url: url.to_owned(),
            body: Some(
                ResourcePostRequest {
                    type_: ResourceKind::Node.to_string(),
                    data: ResourceData::Node(node.to_v1_0()),
                },
            ),
        }
    }

    /// The request that registers a device at `url`.
    pub fn register_device(url: &str, device: &Device) -> (request: PostRequest)
        ensures
            request.url@ == url@,
            request.body matches Some(body) && posts_device(*device, body),
    {
        PostRequest {
            url: url.to_owned(),
            body: Some(
                ResourcePostRequest {
                    type_: ResourceKind::Device.to_string(),
                    data: ResourceData::Device(device.to_v1_0()),
                },
            ),
        }
    }

    /// The request that registers a source at `url`.
    pub fn register_source(url: &str, source: &Source) -> (request: PostRequest)
        ensures
            request.url@ == url@,
            request.body matches Some(body) && posts_source(*source, body),
    {
        PostRequest {
            url: url.to_owned(),
            body: Some(
                ResourcePostRequest {
                    type_: ResourceKind::Source.to_string(),
                    data: ResourceData::Source(source.to_v1_0()),
                },
            ),
        }
    }

    /// The request that registers a flow at `url`.
    pub fn register_flow(url: &str, flow: &Flow) -> (request: PostRequest)
        ensures
            request.url@ == url@,
            request.body matches Some(body) && posts_flow(*flow, body),
    {
        PostRequest {
            url: url.to_owned(),
            body: Some(
                ResourcePostRequest {
                    type_: ResourceKind::Flow.to_string(),
                    data: ResourceData::Flow(flow.to_v1_0()),
                },
            ),
        }
    }

    /// The request that registers a sender at `url`.
    pub fn register_sender(url: &str, sender: &Sender) -> (request: PostRequest)
        ensures
            request.url@ == url@,
            request.body matches Some(body) && posts_sender(*sender, body),
    {
        PostRequest {
            url: url.to_owned(),
            body: Some(
                ResourcePostRequest {
                    type_: ResourceKind::Sender.to_string(),
                    data: ResourceData::Sender(sender.to_v1_0()),
                },
            ),
        }
    }

    /// The request that registers a receiver at `url`.
    pub fn register_receiver(url: &str, receiver: &Receiver) -> (request: PostRequest)
        ensures
            request.url@ == url@,
            request.body matches Some(body) && posts_receiver(*receiver, body),
    {
        PostRequest {
            url: url.to_owned(),
            body: Some(
                ResourcePostRequest {
                    type_: ResourceKind::Receiver.to_string(),
                    data: ResourceData::Receiver(receiver.to_v1_0()),
                },
            ),
        }
    }

    /// The request that registers, at `url`, the resource of the model with
    /// the given kind and identifier; `NotFound` where the model holds none.
    pub fn register_resource(url: &str, model: &Model, kind: ResourceKind, id: u128) -> (r: Result<
        PostRequest,
        Error,
    >)
        ensures
            r is Ok <==> present(*model, kind, id),
            r matches Ok(request) ==> request.url@ == url@ && (request.body matches Some(body)
                && posts(*model, kind, id, body)),
            r is Err ==> r->Err_0 == Error::NotFound,
    {
        match kind {
            ResourceKind::Node => match model.get_node(id) {
                Ok(node) => Ok(Self::register_node(url, node)),
                Err(e) => Err(e),
            },
            ResourceKind::Device => match model.get_device(id) {
                Ok(device) => Ok(Self::register_device(url, device)),
                Err(e) => Err(e),
            },
            ResourceKind::Source => match model.get_source(id) {
                Ok(source) => Ok(Self::register_source(url, source)),
                Err(e) => Err(e),
            },
            ResourceKind::Flow => match model.get_flow(id) {
                Ok(flow) => Ok(Self::register_flow(url, flow)),
                Err(e) => Err(e),
            },
            ResourceKind::Sender => match model.get_sender(id) {
                Ok(sender) => Ok(Self::register_sender(url, sender)),
                Err(e) => Err(e),
            },
            ResourceKind::Receiver => match model.get_receiver(id) {
                Ok(receiver) => Ok(Self::register_receiver(url, receiver)),
                Err(e) => Err(e),
            },
        }
    }

    /// The URL of a registry to which resources are posted, if the URL of the
    /// registry allows one.
    pub fn resource_endpoint(registry: &NmosMdnsRegistry) -> (r: Option<String>)
        ensures
            r is Some == resource_url(registry.url@) is Some,
            r matches Some(url) ==> Some(url@) == resource_url(registry.url@),
    {
        match join_url(registry.url.as_str(), "v1.0/") {
            Some(base) => join_url(base.as_str(), "resource"),
            None => None,
        }
    }

    /// The URL of a registry to which the heartbeats of a node are posted, if
    /// the URL of the registry allows one.
    pub fn heartbeat_endpoint(registry: &NmosMdnsRegistry, node: u128) -> (r: Option<String>)
        ensures
            r is Some == heartbeat_url(registry.url@, node) is Some,
            r matches Some(url) ==> Some(url@) == heartbeat_url(registry.url@, node),
    {
        match join_url(registry.url.as_str(), "v1.0/") {
            Some(base) => {
                let mut reference = String::from_str("health/nodes/");
                reference.append(to_hyphenated(node).as_str());
                join_url(base.as_str(), reference.as_str())
            },
            None => None,
        }
    }

    /// The resources to register, by kind and identifier, in the order of
    /// registration.
    pub fn plan(model: &Model) -> (r: Vec<(ResourceKind, u128)>)
        ensures
            r@ == plan_of(*model),
    {
        let mut r: Vec<(ResourceKind, u128)> = Vec::new();
        if model.nodes.len() == 0 {
            assert(r@ =~= plan_of(*model));
            return r;
        }
        r.push((ResourceKind::Node, model.nodes[0].core.id));
        let ghost nodes = r@;
        let mut i: usize = 0;
        while i < model.devices.len()
            invariant
                i <= model.devices.len(),
                r@ == nodes + keys_of(
                    ResourceKind::Device,
                    Seq::new(i as nat, |k: int| model.devices@[k].core.id),
                ),
            decreases model.devices.len() - i,
        {
            r.push((ResourceKind::Device, model.devices[i].core.id));
            assert(r@ =~= nodes + keys_of(
                ResourceKind::Device,
                Seq::new((i + 1) as nat, |k: int| model.devices@[k].core.id),
            ));
            i = i + 1;
        }
        let ghost devices = r@;
        let mut i: usize = 0;
        while i < model.sources.len()
            invariant
                i <= model.sources.len(),
                r@ == devices + keys_of(
                    ResourceKind::Source,
                    Seq::new(i as nat, |k: int| model.sources@[k].core.id),
                ),
            decreases model.sources.len() - i,
        {
            r.push((ResourceKind::Source, model.sources[i].core.id));
            assert(r@ =~= devices + keys_of(
                ResourceKind::Source,
                Seq::new((i + 1) as nat, |k: int| model.sources@[k].core.id),
            ));
            i = i + 1;
        }
        let ghost sources = r@;
        let mut i: usize = 0;
        while i < model.flows.len()
            invariant
                i <= model.flows.len(),
                r@ == sources + keys_of(
                    ResourceKind::Flow,
                    Seq::new(i as nat, |k: int| model.flows@[k].core.id),
                ),
            decreases model.flows.len() - i,
        {
            r.push((ResourceKind::Flow, model.flows[i].core.id));
            assert(r@ =~= sources + keys_of(
                ResourceKind::Flow,
                Seq::new((i + 1) as nat, |k: int| model.flows@[k].core.id),
            ));
            i = i + 1;
        }
        let ghost flows = r@;
        let mut i: usize = 0;
        while i < model.senders.len()
            invariant
                i <= model.senders.len(),
                r@ == flows + keys_of(
                    ResourceKind::Sender,
                    Seq::new(i as nat, |k: int| model.senders@[k].core.id),
                ),
            decreases model.senders.len() - i,
        {
            r.push((ResourceKind::Sender, model.senders[i].core.id));
            assert(r@ =~= flows + keys_of(
                ResourceKind::Sender,
                Seq::new((i + 1) as nat, |k: int| model.senders@[k].core.id),
            ));
            i = i + 1;
        }
        let ghost senders = r@;
        let mut i: usize = 0;
        while i < model.receivers.len()
            invariant
                i <= model.receivers.len(),
                r@ == senders + keys_of(
                    ResourceKind::Receiver,
                    Seq::new(i as nat, |k: int| model.receivers@[k].core.id),
                ),
            decreases model.receivers.len() - i,
        {
            r.push((ResourceKind::Receiver, model.receivers[i].core.id));
            assert(r@ =~= senders + keys_of(
                ResourceKind::Receiver,
                Seq::new((i + 1) as nat, |k: int| model.receivers@[k].core.id),
            ));
            i = i + 1;
        }
        assert(r@ =~= plan_of(*model));
        r
    }

    /// The requests that register the resources of the model with a
    /// registry, in the order in which they are to be sent. `NotFound` where
    /// the model has no node; `TransportError` where the URL of the registry
    /// allows no URL for resources.
    pub fn register_resources(model: &Model, registry: &NmosMdnsRegistry) -> (r: Result<
        Vec<PostRequest>,
        Error,
    >)
        ensures
            model.nodes@.len() == 0 ==> r == Err::<Vec<PostRequest>, Error>(Error::NotFound),
            model.nodes@.len() > 0 && resource_url(registry.url@) is None ==> r == Err::<
                Vec<PostRequest>,
                Error,
            >(Error::TransportError),
            model.nodes@.len() > 0 && resource_url(registry.url@) is Some ==> (r matches Ok(
                requests,
            ) && {
                &&& requests@.len() == plan_of(*model).len()
                &&& forall|i: int|
                    0 <= i < requests@.len() ==> Some((#[trigger] requests@[i]).url@)
                        == resource_url(registry.url@) && (requests@[i].body matches Some(body)
                        && posts(*model, plan_of(*model)[i].0, plan_of(*model)[i].1, body))
            }),
    {
        if model.nodes.len() == 0 {
            return Err(Error::NotFound);
        }
        let url = match Self::resource_endpoint(registry) {
            Some(url) => url,
            None => {
                return Err(Error::TransportError);
            },
        };
        let plan = Self::plan(model);
        proof {
            lemma_plan_order(*model);
        }
        let mut requests: Vec<PostRequest> = Vec::new();
        let mut i: usize = 0;
        while i < plan.len()
            invariant
                i <= plan.len(),
                plan@ == plan_of(*model),
                Some(url@) == resource_url(registry.url@),
                forall|k: int|
                    0 <= k < plan@.len() ==> present(*model, (#[trigger] plan@[k]).0, plan@[k].1),
                requests@.len() == i,
                forall|k: int|
                    0 <= k < i ==> (#[trigger] requests@[k]).url@ == url@ && (
                    requests@[k].body matches Some(body) && posts(
                        *model,
                        plan@[k].0,
                        plan@[k].1,
                        body,
                    )),
            decreases plan.len() - i,
        {
            let (kind, id) = plan[i];
            match Self::register_resource(url.as_str(), model, kind, id) {
                Ok(request) => {
                    requests.push(request);
                },
                Err(_) => {
                    assert(present(*model, plan@[i as int].0, plan@[i as int].1));
                    assert(false);
                },
            }
            i = i + 1;
        }
        Ok(requests)
    }
}

/// Every entry of the plan names a resource that the model holds; the kinds
/// come in the order of registration; and the plan has an entry for the
/// first node and for every other resource of the model.
pub proof fn lemma_plan_order(model: Model)
    ensures
        forall|k: int|
            0 <= k < plan_of(model).len() ==> present(
                model,
                (#[trigger] plan_of(model)[k]).0,
                plan_of(model)[k].1,
            ),
        forall|i: int, j: int|
            0 <= i <= j < plan_of(model).len() ==> kind_rank((#[trigger] plan_of(model)[i]).0)
                <= kind_rank((#[trigger] plan_of(model)[j]).0),
        model.nodes@.len() > 0 ==> plan_of(model).len() == 1 + model.devices@.len()
            + model.sources@.len() + model.flows@.len() + model.senders@.len()
            + model.receivers@.len(),
{
    let plan = plan_of(model);
    if model.nodes@.len() > 0 {
        let n: int = 1;
        let d = n + model.devices@.len();
        let s = d + model.sources@.len();
        let f = s + model.flows@.len();
        let e = f + model.senders@.len();
        assert forall|k: int| 0 <= k < plan.len() implies present(
            model,
            (#[trigger] plan[k]).0,
            plan[k].1,
        ) && kind_rank(plan[k].0) == (if k < n {
            0int
        } else if k < d {
            1
        } else if k < s {
            2
        } else if k < f {
            3
        } else if k < e {
            4
        } else {
            5
        }) by {
            if k < n {
                assert(plan[k] == (ResourceKind::Node, model.nodes@[0].core.id));
                assert(model.nodes@[0].ident() == plan[k].1);
            } else if k < d {
                assert(plan[k] == (ResourceKind::Device, model.devices@[k - n].core.id));
                assert(model.devices@[k - n].ident() == plan[k].1);
            } else if k < s {
                assert(plan[k] == (ResourceKind::Source, model.sources@[k - d].core.id));
                assert(model.sources@[k - d].ident() == plan[k].1);
            } else if k < f {
                assert(plan[k] == (ResourceKind::Flow, model.flows@[k - s].core.id));
                assert(model.flows@[k - s].ident() == plan[k].1);
            } else if k < e {
                assert(plan[k] == (ResourceKind::Sender, model.senders@[k - f].core.id));
                assert(model.senders@[k - f].ident() == plan[k].1);
            } else {
                assert(plan[k] == (ResourceKind::Receiver, model.receivers@[k - e].core.id));
                assert(model.receivers@[k - e].ident() == plan[k].1);
            }
        }
    }
}

} // verus!
