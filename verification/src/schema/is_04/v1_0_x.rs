//! Records of IS-04 v1.0. Each field is a member of the JSON object, under the
//! field's name without a trailing underscore.

use vstd::prelude::*;

use crate::json::{
    empty_object, items_view, member, members_view, put_item, put_member, text_array,
    text_or_null, Json, JsonView, Member, MemberView,
};
use crate::tags::{texts, Tags, TagsView};
use crate::text::text_of;

verus! {

/// The capabilities of a resource: in this version always the empty object.
#[derive(Debug, Clone, Copy, PartialEq, Eq, Structural)]
pub struct Caps {}

/// A service that a node advertises.
#[derive(Debug)]
pub struct NodeItemServices {
    pub href: String,
    pub type_: String,
}

/// A node.
#[derive(Debug)]
pub struct Node {
    pub id: String,
    pub version: String,
    pub label: String,
    pub href: String,
    pub hostname: Option<String>,
    pub caps: Caps,
    pub services: Vec<NodeItemServices>,
}

/// A device.
#[derive(Debug)]
pub struct Device {
    pub id: String,
    pub version: String,
    pub label: String,
    pub type_: String,
    pub node_id: String,
    pub senders: Vec<String>,
    pub receivers: Vec<String>,
}

/// A source.
#[derive(Debug)]
pub struct Source {
    pub id: String,
    pub version: String,
    pub label: String,
    pub description: String,
    pub format: String,
    pub caps: Caps,
    pub tags: Tags,
    pub device_id: String,
    pub parents: Vec<String>,
}

/// A flow.
#[derive(Debug)]
pub struct Flow {
    pub id: String,
    pub version: String,
    pub label: String,
    pub description: String,
    pub format: String,
    pub tags: Tags,
    pub source_id: String,
    pub parents: Vec<String>,
}

/// A sender. `tags` is absent where the sender has none.
#[derive(Debug)]
pub struct Sender {
    pub id: String,
    pub version: String,
    pub label: String,
    pub description: String,
    pub flow_id: String,
    pub transport: String,
    pub tags: Option<Tags>,
    pub device_id: String,
    pub manifest_href: String,
}

/// The sender that a receiver is subscribed to: `null` where it has none.
#[derive(Debug)]
pub struct ReceiverSubscription {
    pub sender_id: Option<String>,
}

/// A receiver.
#[derive(Debug)]
pub struct Receiver {
    pub id: String,
    pub version: String,
    pub label: String,
    pub description: String,
    pub format: String,
    pub caps: Caps,
    pub tags: Tags,
    pub device_id: String,
    pub transport: String,
    pub subscription: ReceiverSubscription,
}

/// The body of every response that reports an error.
#[derive(Debug)]
pub struct Error {
    pub code: i64,
    pub error: String,
    pub debug: Option<String>,
}

/// A resource of one of the six kinds.
#[derive(Debug)]
pub enum ResourceData {
    Node(Node),
    Device(Device),
    Source(Source),
    Flow(Flow),
    Sender(Sender),
    Receiver(Receiver),
}

/// The body of a request that registers a resource: the name of its kind
/// under `type`, and the resource under `data`.
#[derive(Debug)]
pub struct ResourcePostRequest {
    pub type_: String,
    pub data: ResourceData,
}

/// The JSON object of a set of tags: each key with the array of its values,
/// in the order of the keys.
pub open spec fn tags_value(tags: TagsView) -> JsonView {
    JsonView::Object(Seq::new(tags.len(), |i: int| member(tags[i].0, text_array(tags[i].1))))
}

/// The JSON object of a set of tags.
pub fn tags_json(tags: &Tags) -> (json: Json)
    ensures
        json@ == tags_value(tags@),
{
    let mut members: Vec<Member> = Vec::new();
    let mut i: usize = 0;
    assert(members_view(members@) =~= Seq::<MemberView>::empty());
    while i < tags.len()
        invariant
            i <= tags@.len(),
            members_view(members@) == Seq::new(
                i as nat,
                |k: int| member(tags@[k].0, text_array(tags@[k].1)),
            ),
        decreases tags@.len() - i,
    {
        let value = Json::texts(tags.values(i));
        let ghost before = members_view(members@);
        put_member(&mut members, tags.key(i).as_str(), value);
        assert(members_view(members@) =~= Seq::new(
            (i + 1) as nat,
            |k: int| member(tags@[k].0, text_array(tags@[k].1)),
        ));
        i = i + 1;
    }
    Json::object(members)
}

impl NodeItemServices {
    /// The JSON object of the service.
    pub open spec fn value(&self) -> JsonView {
        JsonView::Object(
            seq![
                member("href"@, JsonView::Text(self.href@)),
                member("type"@, JsonView::Text(self.type_@)),
            ],
        )
    }

    /// The JSON object of the service.
    pub fn to_json(&self) -> (json: Json)
        ensures
            json@ == self.value(),
    {
        let mut members: Vec<Member> = Vec::new();
        assert(members_view(members@) =~= Seq::<MemberView>::empty());
        put_member(&mut members, "href", Json::text(self.href.as_str()));
        put_member(&mut members, "type", Json::text(self.type_.as_str()));
        assert(members_view(members@) =~= self.value()->Object_0);
        Json::object(members)
    }
}

/// The member for the host name of a node, if it has one.
pub open spec fn hostname_member(hostname: Option<String>) -> Seq<MemberView> {
    match hostname {
        Some(name) => seq![member("hostname"@, JsonView::Text(name@))],
        None => Seq::empty(),
    }
}

/// The member for the tags of a sender, if it has any.
pub open spec fn sender_tags_member(tags: Option<Tags>) -> Seq<MemberView> {
    match tags {
        Some(tags) => seq![member("tags"@, tags_value(tags@))],
        None => Seq::empty(),
    }
}

impl Node {
    /// The JSON object of the node. The host name is left out where there
    /// is none.
    pub open spec fn value(&self) -> JsonView {
        JsonView::Object(
            seq![
                member("id"@, JsonView::Text(self.id@)),
                member("version"@, JsonView::Text(self.version@)),
                member("label"@, JsonView::Text(self.label@)),
                member("href"@, JsonView::Text(self.href@)),
            ] + hostname_member(self.hostname) + seq![
                member("caps"@, empty_object()),
                member(
                    "services"@,
                    JsonView::Array(
                        Seq::new(self.services@.len(), |i: int| self.services@[i].value()),
                    ),
                ),
            ],
        )
    }

    /// The JSON object of the node.
    pub fn to_json(&self) -> (json: Json)
        ensures
            json@ == self.value(),
    {
        let mut services: Vec<Json> = Vec::new();
        let mut i: usize = 0;
        assert(items_view(services@) =~= Seq::<JsonView>::empty());
        while i < self.services.len()
            invariant
                i <= self.services@.len(),
                items_view(services@) == Seq::new(i as nat, |k: int| self.services@[k].value()),
            decreases self.services@.len() - i,
        {
            put_item(&mut services, self.services[i].to_json());
            assert(items_view(services@) =~= Seq::new(
                (i + 1) as nat,
                |k: int| self.services@[k].value(),
            ));
            i = i + 1;
        }
        let mut members: Vec<Member> = Vec::new();
        assert(members_view(members@) =~= Seq::<MemberView>::empty());
        put_member(&mut members, "id", Json::text(self.id.as_str()));
        put_member(&mut members, "version", Json::text(self.version.as_str()));
        put_member(&mut members, "label", Json::text(self.label.as_str()));
        put_member(&mut members, "href", Json::text(self.href.as_str()));
        match &self.hostname {
            Some(name) => {
                put_member(&mut members, "hostname", Json::text(name.as_str()));
            },
            None => {},
        }
        put_member(&mut members, "caps", Json::empty_object());
        put_member(&mut members, "services", Json::array(services));
        assert(members_view(members@) =~= self.value()->Object_0);
        Json::object(members)
    }
}

impl Device {
    /// The JSON object of the device.
    pub open spec fn value(&self) -> JsonView {
        JsonView::Object(
            seq![
                member("id"@, JsonView::Text(self.id@)),
                member("version"@, JsonView::Text(self.version@)),
                member("label"@, JsonView::Text(self.label@)),
                member("type"@, JsonView::Text(self.type_@)),
                member("node_id"@, JsonView::Text(self.node_id@)),
                member("senders"@, text_array(texts(self.senders@))),
                member("receivers"@, text_array(texts(self.receivers@))),
            ],
        )
    }

    /// The JSON object of the device.
    pub fn to_json(&self) -> (json: Json)
        ensures
            json@ == self.value(),
    {
        let mut members: Vec<Member> = Vec::new();
        assert(members_view(members@) =~= Seq::<MemberView>::empty());
        put_member(&mut members, "id", Json::text(self.id.as_str()));
        put_member(&mut members, "version", Json::text(self.version.as_str()));
        put_member(&mut members, "label", Json::text(self.label.as_str()));
        put_member(&mut members, "type", Json::text(self.type_.as_str()));
        put_member(&mut members, "node_id", Json::text(self.node_id.as_str()));
        put_member(&mut members, "senders", Json::texts(&self.senders));
        put_member(&mut members, "receivers", Json::texts(&self.receivers));
        assert(members_view(members@) =~= self.value()->Object_0);
        Json::object(members)
    }
}

impl Source {
    /// The JSON object of the source.
    pub open spec fn value(&self) -> JsonView {
        JsonView::Object(
            seq![
                member("id"@, JsonView::Text(self.id@)),
                member("version"@, JsonView::Text(self.version@)),
                member("label"@, JsonView::Text(self.label@)),
                member("description"@, JsonView::Text(self.description@)),
                member("format"@, JsonView::Text(self.format@)),
                member("caps"@, empty_object()),
                member("tags"@, tags_value(self.tags@)),
                member("device_id"@, JsonView::Text(self.device_id@)),
                member("parents"@, text_array(texts(self.parents@))),
            ],
        )
    }

    /// The JSON object of the source.
    pub fn to_json(&self) -> (json: Json)
        ensures
            json@ == self.value(),
    {
        let mut members: Vec<Member> = Vec::new();
        assert(members_view(members@) =~= Seq::<MemberView>::empty());
        put_member(&mut members, "id", Json::text(self.id.as_str()));
        put_member(&mut members, "version", Json::text(self.version.as_str()));
        put_member(&mut members, "label", Json::text(self.label.as_str()));
        put_member(&mut members, "description", Json::text(self.description.as_str()));
        put_member(&mut members, "format", Json::text(self.format.as_str()));
        put_member(&mut members, "caps", Json::empty_object());
        put_member(&mut members, "tags", tags_json(&self.tags));
        put_member(&mut members, "device_id", Json::text(self.device_id.as_str()));
        put_member(&mut members, "parents", Json::texts(&self.parents));
        assert(members_view(members@) =~= self.value()->Object_0);
        Json::object(members)
    }
}

impl Flow {
    /// The JSON object of the flow.
    pub open spec fn value(&self) -> JsonView {
        JsonView::Object(
            seq![
                member("id"@, JsonView::Text(self.id@)),
                member("version"@, JsonView::Text(self.version@)),
                member("label"@, JsonView::Text(self.label@)),
                member("description"@, JsonView::Text(self.description@)),
                member("format"@, JsonView::Text(self.format@)),
                member("tags"@, tags_value(self.tags@)),
                member("source_id"@, JsonView::Text(self.source_id@)),
                member("parents"@, text_array(texts(self.parents@))),
            ],
        )
    }

    /// The JSON object of the flow.
    pub fn to_json(&self) -> (json: Json)
        ensures
            json@ == self.value(),
    {
        let mut members: Vec<Member> = Vec::new();
        assert(members_view(members@) =~= Seq::<MemberView>::empty());
        put_member(&mut members, "id", Json::text(self.id.as_str()));
        put_member(&mut members, "version", Json::text(self.version.as_str()));
        put_member(&mut members, "label", Json::text(self.label.as_str()));
        put_member(&mut members, "description", Json::text(self.description.as_str()));
        put_member(&mut members, "format", Json::text(self.format.as_str()));
        put_member(&mut members, "tags", tags_json(&self.tags));
        put_member(&mut members, "source_id", Json::text(self.source_id.as_str()));
        put_member(&mut members, "parents", Json::texts(&self.parents));
        assert(members_view(members@) =~= self.value()->Object_0);
        Json::object(members)
    }
}

impl Sender {
    /// The JSON object of the sender. The tags are left out where there are
    /// none.
    pub open spec fn value(&self) -> JsonView {
        JsonView::Object(
            seq![
                member("id"@, JsonView::Text(self.id@)),
                member("version"@, JsonView::Text(self.version@)),
                member("label"@, JsonView::Text(self.label@)),
                member("description"@, JsonView::Text(self.description@)),
                member("flow_id"@, JsonView::Text(self.flow_id@)),
                member("transport"@, JsonView::Text(self.transport@)),
            ] + sender_tags_member(self.tags) + seq![
                member("device_id"@, JsonView::Text(self.device_id@)),
                member("manifest_href"@, JsonView::Text(self.manifest_href@)),
            ],
        )
    }

    /// The JSON object of the sender.
    pub fn to_json(&self) -> (json: Json)
        ensures
            json@ == self.value(),
    {
        let mut members: Vec<Member> = Vec::new();
        assert(members_view(members@) =~= Seq::<MemberView>::empty());
        put_member(&mut members, "id", Json::text(self.id.as_str()));
        put_member(&mut members, "version", Json::text(self.version.as_str()));
        put_member(&mut members, "label", Json::text(self.label.as_str()));
        put_member(&mut members, "description", Json::text(self.description.as_str()));
        put_member(&mut members, "flow_id", Json::text(self.flow_id.as_str()));
        put_member(&mut members, "transport", Json::text(self.transport.as_str()));
        match &self.tags {
            Some(tags) => {
                put_member(&mut members, "tags", tags_json(tags));
            },
            None => {},
        }
        put_member(&mut members, "device_id", Json::text(self.device_id.as_str()));
        put_member(&mut members, "manifest_href", Json::text(self.manifest_href.as_str()));
        assert(members_view(members@) =~= self.value()->Object_0);
        Json::object(members)
    }
}

impl ReceiverSubscription {
    /// The JSON object of the subscription: the sender, or `null`.
    pub open spec fn value(&self) -> JsonView {
        JsonView::Object(seq![member("sender_id"@, text_or_null(text_of(self.sender_id)))])
    }

    /// The JSON object of the subscription.
    pub fn to_json(&self) -> (json: Json)
        ensures
            json@ == self.value(),
    {
        let mut members: Vec<Member> = Vec::new();
        assert(members_view(members@) =~= Seq::<MemberView>::empty());
        put_member(&mut members, "sender_id", Json::text_or_null(&self.sender_id));
        assert(members_view(members@) =~= self.value()->Object_0);
        Json::object(members)
    }
}

impl Receiver {
    /// The JSON object of the receiver.
    pub open spec fn value(&self) -> JsonView {
        JsonView::Object(
            seq![
                member("id"@, JsonView::Text(self.id@)),
                member("version"@, JsonView::Text(self.version@)),
                member("label"@, JsonView::Text(self.label@)),
                member("description"@, JsonView::Text(self.description@)),
                member("format"@, JsonView::Text(self.format@)),
                member("caps"@, empty_object()),
                member("tags"@, tags_value(self.tags@)),
                member("device_id"@, JsonView::Text(self.device_id@)),
                member("transport"@, JsonView::Text(self.transport@)),
                member("subscription"@, self.subscription.value()),
            ],
        )
    }

    /// The JSON object of the receiver.
    pub fn to_json(&self) -> (json: Json)
        ensures
            json@ == self.value(),
    {
        let mut members: Vec<Member> = Vec::new();
        assert(members_view(members@) =~= Seq::<MemberView>::empty());
        put_member(&mut members, "id", Json::text(self.id.as_str()));
        put_member(&mut members, "version", Json::text(self.version.as_str()));
        put_member(&mut members, "label", Json::text(self.label.as_str()));
        put_member(&mut members, "description", Json::text(self.description.as_str()));
        put_member(&mut members, "format", Json::text(self.format.as_str()));
        put_member(&mut members, "caps", Json::empty_object());
        put_member(&mut members, "tags", tags_json(&self.tags));
        put_member(&mut members, "device_id", Json::text(self.device_id.as_str()));
        put_member(&mut members, "transport", Json::text(self.transport.as_str()));
        put_member(&mut members, "subscription", self.subscription.to_json());
        assert(members_view(members@) =~= self.value()->Object_0);
        Json::object(members)
    }
}

impl Error {
    /// The JSON object of the report: `debug` is `null` where there is no
    /// message.
    pub open spec fn value(&self) -> JsonView {
        JsonView::Object(
            seq![
                member("code"@, JsonView::Number(self.code as int)),
                member("error"@, JsonView::Text(self.error@)),
                member("debug"@, text_or_null(text_of(self.debug))),
            ],
        )
    }

    /// The JSON object of the report.
    pub fn to_json(&self) -> (json: Json)
        ensures
            json@ == self.value(),
    {
        let mut members: Vec<Member> = Vec::new();
        assert(members_view(members@) =~= Seq::<MemberView>::empty());
        put_member(&mut members, "code", Json::Number(self.code));
        put_member(&mut members, "error", Json::text(self.error.as_str()));
        put_member(&mut members, "debug", Json::text_or_null(&self.debug));
        assert(members_view(members@) =~= self.value()->Object_0);
        Json::object(members)
    }
}

impl ResourceData {
    /// The JSON object of the resource.
    pub open spec fn value(&self) -> JsonView {
        match *self {
            ResourceData::Node(node) => node.value(),
            ResourceData::Device(device) => device.value(),
            ResourceData::Source(source) => source.value(),
            ResourceData::Flow(flow) => flow.value(),
            ResourceData::Sender(sender) => sender.value(),
            ResourceData::Receiver(receiver) => receiver.value(),
        }
    }

    /// The JSON object of the resource.
    pub fn to_json(&self) -> (json: Json)
        ensures
            json@ == self.value(),
    {
        match self {
            ResourceData::Node(node) => node.to_json(),
            ResourceData::Device(device) => device.to_json(),
            ResourceData::Source(source) => source.to_json(),
            ResourceData::Flow(flow) => flow.to_json(),
            ResourceData::Sender(sender) => sender.to_json(),
            ResourceData::Receiver(receiver) => receiver.to_json(),
        }
    }
}

impl ResourcePostRequest {
    /// The JSON object of the request body.
    pub open spec fn value(&self) -> JsonView {
        JsonView::Object(
            seq![member("type"@, JsonView::Text(self.type_@)), member("data"@, self.data.value())],
        )
    }

    /// The JSON object of the request body.
    pub fn to_json(&self) -> (json: Json)
        ensures
            json@ == self.value(),
    {
        let mut members: Vec<Member> = Vec::new();
        assert(members_view(members@) =~= Seq::<MemberView>::empty());
        put_member(&mut members, "type", Json::text(self.type_.as_str()));
        put_member(&mut members, "data", self.data.to_json());
        assert(members_view(members@) =~= self.value()->Object_0);
        Json::object(members)
    }
}

} // verus!
