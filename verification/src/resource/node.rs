//! Nodes.

use vstd::prelude::*;

use crate::error::Error;
use crate::json::{has_member, member, Json, JsonView};
use crate::ident::{hyphenated, new_v4, to_hyphenated};
use crate::resource::{description_or_empty, ResourceCore, ResourceCoreBuilder};
use crate::schema::is_04;
use crate::tags::TagsView;
use crate::tai::{tai_text, TaiTime};
use crate::version::{supported, APIVersion};

verus! {

/// A service that a node advertises.
#[derive(Debug)]
pub struct NodeService {
    pub href: String,
    pub type_: String,
}

/// Collects what a node has, before the node is made.
#[derive(Debug)]
pub struct NodeBuilder {
    pub core: ResourceCoreBuilder,
    pub href: String,
    pub hostname: Option<String>,
    pub services: Vec<NodeService>,
}

/// A node: the host of devices.
#[derive(Debug)]
pub struct Node {
    pub core: ResourceCore,
    pub href: String,
    pub hostname: Option<String>,
    pub services: Vec<NodeService>,
}

/// The JSON form of a node, by API version.
#[derive(Debug)]
pub enum NodeJson {
    V1_0(is_04::v1_0_x::Node),
}

/// Whether `json` is the v1.0 form of `node`.
pub open spec fn is_node_v1_0(node: Node, json: is_04::v1_0_x::Node) -> bool {
    &&& json.id@ == hyphenated(node.core.id)
    &&& json.version@ == tai_text(node.core.version.secs(), node.core.version.nanos())
    &&& json.label@ == node.core.label@
    &&& json.href@ == node.href@
    &&& json.hostname is Some == node.hostname is Some
    &&& json.hostname matches Some(name) ==> name@ == node.hostname->0@
    &&& json.services@.len() == node.services@.len()
    &&& forall|i: int|
        0 <= i < node.services@.len() ==> (#[trigger] json.services@[i]).href@
            == node.services@[i].href@ && json.services@[i].type_@ == node.services@[i].type_@
}

impl NodeBuilder {
    /// A builder for a node with a label and the address of its API, without
    /// host name or services.
    pub fn new(label: &str, href: &str) -> (b: NodeBuilder)
        ensures
            b.core.label@ == label@,
            b.core.description is None,
            b.core.tags@ == TagsView::empty(),
            b.href@ == href@,
            b.hostname is None,
            b.services@.len() == 0,
    {
        NodeBuilder {
            core: ResourceCoreBuilder::new(label),
            href: href.to_owned(),
            hostname: None,
            services: Vec::new(),
        }
    }

    /// Adds a service.
    pub fn with_service(self, service: NodeService) -> (b: NodeBuilder)
        ensures
            b.core == self.core,
            b.href == self.href,
            b.hostname == self.hostname,
            b.services@ == self.services@.push(service),
    {
        let mut services = self.services;
        services.push(service);
        NodeBuilder { core: self.core, href: self.href, hostname: self.hostname, services }
    }

    /// The node with the given identifier and version stamp.
    pub fn build_with(self, id: u128, version: TaiTime) -> (node: Node)
        ensures
            node.core.id == id,
            node.core.version == version,
            node.core.label == self.core.label,
            node.core.description@ == description_or_empty(self.core.description),
            node.core.tags == self.core.tags,
            node.href == self.href,
            node.hostname == self.hostname,
            node.services == self.services,
    {
        Node {
            core: self.core.build_with(id, version),
            href: self.href,
            hostname: self.hostname,
            services: self.services,
        }
    }

    /// The node, with a fresh random identifier and the current time as its
    /// version.
    pub fn build(self) -> (node: Node)
        ensures
            node.core.label == self.core.label,
            node.core.description@ == description_or_empty(self.core.description),
            node.core.tags == self.core.tags,
            node.href == self.href,
            node.hostname == self.hostname,
            node.services == self.services,
    {
        let id = new_v4();
        let version = TaiTime::now();
        self.build_with(id, version)
    }
}

impl Node {
    /// A builder for a node with a label and the address of its API.
    pub fn builder(label: &str, href: &str) -> (b: NodeBuilder)
        ensures
            b.core.label@ == label@,
            b.core.description is None,
            b.core.tags@ == TagsView::empty(),
            b.href@ == href@,
            b.hostname is None,
            b.services@.len() == 0,
    {
        NodeBuilder::new(label, href)
    }

    /// The JSON form of the node in version 1.0 of the API.
    pub fn to_v1_0(&self) -> (json: is_04::v1_0_x::Node)
        ensures
            is_node_v1_0(*self, json),
    {
        let mut services: Vec<is_04::v1_0_x::NodeItemServices> = Vec::new();
        let mut i: usize = 0;
        while i < self.services.len()
            invariant
                i <= self.services.len(),
                services@.len() == i,
                forall|j: int|
                    0 <= j < i ==> (#[trigger] services@[j]).href@ == self.services@[j].href@
                        && services@[j].type_@ == self.services@[j].type_@,
            decreases self.services.len() - i,
        {
            services.push(
                is_04::v1_0_x::NodeItemServices {
                    href: self.services[i].href.clone(),
                    type_: self.services[i].type_.clone(),
                },
            );
            i = i + 1;
        }
        let hostname = match &self.hostname {
            Some(name) => Some(name.clone()),
            None => None,
        };
        is_04::v1_0_x::Node {
            id: to_hyphenated(self.core.id),
            version: self.core.version.to_string(),
            label: self.core.label.clone(),
            href: self.href.clone(),
            hostname,
            caps: is_04::v1_0_x::Caps {  },
            services,
        }
    }

    /// The JSON form of the node in the given API version.
    pub fn to_json(&self, api: &APIVersion) -> (r: Result<NodeJson, Error>)
        ensures
            supported(*api) ==> (r matches Ok(NodeJson::V1_0(json)) && is_node_v1_0(*self, json)),
            !supported(*api) ==> r == Err::<NodeJson, Error>(Error::UnsupportedVersion),
    {
        if api.is_supported() {
            Ok(NodeJson::V1_0(self.to_v1_0()))
        } else {
            Err(Error::UnsupportedVersion)
        }
    }
}

impl NodeJson {
    /// The JSON value of the form.
    pub open spec fn value(&self) -> JsonView {
        match *self {
            NodeJson::V1_0(json) => json.value(),
        }
    }

    /// The JSON value of the form.
    pub fn to_json(&self) -> (json: Json)
        ensures
            json@ == self.value(),
    {
        match self {
            NodeJson::V1_0(json) => json.to_json(),
        }
    }
}

/// The JSON form of a node carries, under `version`, the text of the
/// version stamp of the node: its seconds, a colon, its nanoseconds.
pub proof fn lemma_node_version(node: Node, json: is_04::v1_0_x::Node)
    requires
        is_node_v1_0(node, json),
    ensures
        has_member(
            json.value(),
            "version"@,
            JsonView::Text(tai_text(node.core.version.secs(), node.core.version.nanos())),
        ),
{
    let members = json.value()->Object_0;
    assert(members[1] == member("version"@, JsonView::Text(json.version@)));
}

} // verus!
