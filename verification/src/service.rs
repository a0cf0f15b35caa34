//! The Node API: what the node answers to a request.

use vstd::prelude::*;

use crate::ident::{parse_uuid, parsed_uuid};
use crate::json::{items_view, put_item, render, text_array, Json, JsonView};
use crate::model::Model;
use crate::resource::device::is_device_v1_0;
use crate::resource::flow::is_flow_v1_0;
use crate::resource::node::is_node_v1_0;
use crate::resource::receiver::is_receiver_v1_0;
use crate::resource::sender::is_sender_v1_0;
use crate::resource::source::is_source_v1_0;
use crate::resource::{DeviceJson, FlowJson, NodeJson, ReceiverJson, SenderJson, SourceJson};
use crate::schema::is_04;
use crate::service::error::reports;
use crate::service::node_api::{
    get_device, get_devices, get_flow, get_flows, get_receiver, get_receivers, get_self,
    get_sender, get_senders, get_source, get_sources, lists_devices, lists_flows,
    lists_receivers, lists_senders, lists_sources, missing_message, version_error,
};
use crate::store::lookup;
use crate::tags::texts;
use crate::text::{
    chars_of, lemma_pieces_append, lemma_pieces_separator, pieces, range_is, split, str_eq,
};

pub use error::ServiceError;

pub mod error;
pub mod node_api;
pub mod response;

verus! {

/// The statuses with which the node answers.
#[derive(Debug, Clone, Copy, PartialEq, Eq, Structural)]
pub enum Status {
    Success,
    BadRequest,
    NotFound,
    MethodNotAllowed,
}

/// The number of a status.
pub open spec fn status_code(status: Status) -> u16 {
    match status {
        Status::Success => 200,
        Status::BadRequest => 400,
        Status::NotFound => 404,
        Status::MethodNotAllowed => 405,
    }
}

impl Status {
    /// The number of the status.
    pub fn code(&self) -> (code: u16)
        ensures
            code == status_code(*self),
    {
        match self {
            Status::Success => 200,
            Status::BadRequest => 400,
            Status::NotFound => 404,
            Status::MethodNotAllowed => 405,
        }
    }
}

/// What a response carries as JSON.
#[derive(Debug)]
pub enum Body {
    /// An array of the names below a path.
    Paths(Vec<String>),
    Node(NodeJson),
    Devices(Vec<DeviceJson>),
    Device(DeviceJson),
    Receivers(Vec<ReceiverJson>),
    Receiver(ReceiverJson),
    Senders(Vec<SenderJson>),
    Sender(SenderJson),
    Sources(Vec<SourceJson>),
    Source(SourceJson),
    Flows(Vec<FlowJson>),
    Flow(FlowJson),
    /// The report of an error.
    Error(is_04::v1_0_x::Error),
}

/// A response of the Node API. Its content type is `application/json`.
#[derive(Debug)]
pub struct Response {
    pub status: Status,
    pub body: Body,
}

/// The JSON array of a list of devices.
pub open spec fn devices_value(list: Seq<DeviceJson>) -> JsonView {
    JsonView::Array(Seq::new(list.len(), |i: int| list[i].value()))
}

/// The JSON array of a list of devices.
pub fn devices_json(list: &Vec<DeviceJson>) -> (json: Json)
    ensures
        json@ == devices_value(list@),
{
    let mut items: Vec<Json> = Vec::new();
    let mut i: usize = 0;
    assert(items_view(items@) =~= Seq::<JsonView>::empty());
    while i < list.len()
        invariant
            i <= list@.len(),
            items_view(items@) == Seq::new(i as nat, |k: int| list@[k].value()),
        decreases list@.len() - i,
    {
        put_item(&mut items, list[i].to_json());
        assert(items_view(items@) =~= Seq::new((i + 1) as nat, |k: int| list@[k].value()));
        i = i + 1;
    }
    Json::array(items)
}

/// The JSON array of a list of receivers.
pub open spec fn receivers_value(list: Seq<ReceiverJson>) -> JsonView {
    JsonView::Array(Seq::new(list.len(), |i: int| list[i].value()))
}

/// The JSON array of a list of receivers.
pub fn receivers_json(list: &Vec<ReceiverJson>) -> (json: Json)
    ensures
        json@ == receivers_value(list@),
{
    let mut items: Vec<Json> = Vec::new();
    let mut i: usize = 0;
    assert(items_view(items@) =~= Seq::<JsonView>::empty());
    while i < list.len()
        invariant
            i <= list@.len(),
            items_view(items@) == Seq::new(i as nat, |k: int| list@[k].value()),
        decreases list@.len() - i,
    {
        put_item(&mut items, list[i].to_json());
        assert(items_view(items@) =~= Seq::new((i + 1) as nat, |k: int| list@[k].value()));
        i = i + 1;
    }
    Json::array(items)
}

/// The JSON array of a list of senders.
pub open spec fn senders_value(list: Seq<SenderJson>) -> JsonView {
    JsonView::Array(Seq::new(list.len(), |i: int| list[i].value()))
}

/// The JSON array of a list of senders.
pub fn senders_json(list: &Vec<SenderJson>) -> (json: Json)
    ensures
        json@ == senders_value(list@),
{
    let mut items: Vec<Json> = Vec::new();
    let mut i: usize = 0;
    assert(items_view(items@) =~= Seq::<JsonView>::empty());
    while i < list.len()
        invariant
            i <= list@.len(),
            items_view(items@) == Seq::new(i as nat, |k: int| list@[k].value()),
        decreases list@.len() - i,
    {
        put_item(&mut items, list[i].to_json());
        assert(items_view(items@) =~= Seq::new((i + 1) as nat, |k: int| list@[k].value()));
        i = i + 1;
    }
    Json::array(items)
}

/// The JSON array of a list of sources.
pub open spec fn sources_value(list: Seq<SourceJson>) -> JsonView {
    JsonView::Array(Seq::new(list.len(), |i: int| list[i].value()))
}

/// The JSON array of a list of sources.
pub fn sources_json(list: &Vec<SourceJson>) -> (json: Json)
    ensures
        json@ == sources_value(list@),
{
    let mut items: Vec<Json> = Vec::new();
    let mut i: usize = 0;
    assert(items_view(items@) =~= Seq::<JsonView>::empty());
    while i < list.len()
        invariant
            i <= list@.len(),
            items_view(items@) == Seq::new(i as nat, |k: int| list@[k].value()),
        decreases list@.len() - i,
    {
        put_item(&mut items, list[i].to_json());
        assert(items_view(items@) =~= Seq::new((i + 1) as nat, |k: int| list@[k].value()));
        i = i + 1;
    }
    Json::array(items)
}

/// The JSON array of a list of flows.
pub open spec fn flows_value(list: Seq<FlowJson>) -> JsonView {
    JsonView::Array(Seq::new(list.len(), |i: int| list[i].value()))
}

/// The JSON array of a list of flows.
pub fn flows_json(list: &Vec<FlowJson>) -> (json: Json)
    ensures
        json@ == flows_value(list@),
{
    let mut items: Vec<Json> = Vec::new();
    let mut i: usize = 0;
    assert(items_view(items@) =~= Seq::<JsonView>::empty());
    while i < list.len()
        invariant
            i <= list@.len(),
            items_view(items@) == Seq::new(i as nat, |k: int| list@[k].value()),
        decreases list@.len() - i,
    {
        put_item(&mut items, list[i].to_json());
        assert(items_view(items@) =~= Seq::new((i + 1) as nat, |k: int| list@[k].value()));
        i = i + 1;
    }
    Json::array(items)
}

impl Body {
    /// The JSON value of the body.
    pub open spec fn value(&self) -> JsonView {
        match *self {
            Body::Paths(list) => text_array(texts(list@)),
            Body::Node(node) => node.value(),
            Body::Devices(list) => devices_value(list@),
            Body::Device(device) => device.value(),
            Body::Receivers(list) => receivers_value(list@),
            Body::Receiver(receiver) => receiver.value(),
            Body::Senders(list) => senders_value(list@),
            Body::Sender(sender) => sender.value(),
            Body::Sources(list) => sources_value(list@),
            Body::Source(source) => source.value(),
            Body::Flows(list) => flows_value(list@),
            Body::Flow(flow) => flow.value(),
            Body::Error(report) => report.value(),
        }
    }

    /// The JSON value of the body.
    pub fn to_json(&self) -> (json: Json)
        ensures
            json@ == self.value(),
    {
        match self {
            Body::Paths(list) => Json::texts(list),
            Body::Node(node) => node.to_json(),
            Body::Devices(list) => devices_json(list),
            Body::Device(device) => device.to_json(),
            Body::Receivers(list) => receivers_json(list),
            Body::Receiver(receiver) => receiver.to_json(),
            Body::Senders(list) => senders_json(list),
            Body::Sender(sender) => sender.to_json(),
            Body::Sources(list) => sources_json(list),
            Body::Source(source) => source.to_json(),
            Body::Flows(list) => flows_json(list),
            Body::Flow(flow) => flow.to_json(),
            Body::Error(report) => report.to_json(),
        }
    }
}

impl Response {
    /// The text of the body: its JSON value without any white space.
    pub fn body_text(&self) -> (text: String)
        ensures
            text@ == render(self.body.value()),
    {
        self.body.to_json().to_string()
    }
}

/// The kinds of resource that the API lists below a version.
#[derive(Debug, Clone, Copy, PartialEq, Eq, Structural)]
pub enum Collection {
    Devices,
    Receivers,
    Senders,
    Sources,
    Flows,
}

/// The collection that a path segment names.
pub open spec fn collection_of(segment: Seq<char>) -> Option<Collection> {
    if segment == "devices"@ {
        Some(Collection::Devices)
    } else if segment == "receivers"@ {
        Some(Collection::Receivers)
    } else if segment == "senders"@ {
        Some(Collection::Senders)
    } else if segment == "sources"@ {
        Some(Collection::Sources)
    } else if segment == "flows"@ {
        Some(Collection::Flows)
    } else {
        None
    }
}

/// What a path of the API stands for.
pub enum RouteView {
    /// `/`
    Root,
    /// `/x-nmos/`
    XNmos,
    /// `/x-nmos/node/`
    NodeApi,
    /// `/x-nmos/node/v1.0/`
    Version,
    /// `/x-nmos/node/{api}/self`
    SelfNode { api: Seq<char> },
    /// `/x-nmos/node/{api}/{collection}/`
    List { api: Seq<char>, collection: Collection },
    /// `/x-nmos/node/{api}/{collection}/{id}`
    Item { api: Seq<char>, collection: Collection, id: Seq<char> },
    /// Any other path.
    Unknown,
}

/// The path of a request target: what stands before the first question mark.
pub open spec fn path_of(uri: Seq<char>) -> Seq<char> {
    match uri.index_of_first('?') {
        Some(at) => uri.take(at),
        None => uri,
    }
}

/// What a path stands for. A parameter in braces is a segment that is not
/// empty.
pub open spec fn route_of(path: Seq<char>) -> RouteView {
    let p = pieces(path, '/');
    if path == "/"@ {
        RouteView::Root
    } else if path == "/x-nmos/"@ {
        RouteView::XNmos
    } else if path == "/x-nmos/node/"@ {
        RouteView::NodeApi
    } else if path == "/x-nmos/node/v1.0/"@ {
        RouteView::Version
    } else if (p.len() == 5 || p.len() == 6) && p[0].len() == 0 && p[1] == "x-nmos"@ && p[2]
        == "node"@ && p[3].len() > 0 {
        if p.len() == 5 {
            if p[4] == "self"@ {
                RouteView::SelfNode { api: p[3] }
            } else {
                RouteView::Unknown
            }
        } else {
            match collection_of(p[4]) {
                Some(collection) => if p[5].len() == 0 {
                    RouteView::List { api: p[3], collection }
                } else {
                    RouteView::Item { api: p[3], collection, id: p[5] }
                },
                None => RouteView::Unknown,
            }
        }
    } else {
        RouteView::Unknown
    }
}

/// The segment of the path that names a collection.
pub open spec fn collection_name(collection: Collection) -> Seq<char> {
    match collection {
        Collection::Devices => "devices"@,
        Collection::Receivers => "receivers"@,
        Collection::Senders => "senders"@,
        Collection::Sources => "sources"@,
        Collection::Flows => "flows"@,
    }
}

/// The path below a version: `/x-nmos/node/`, the version, a slash, and the
/// rest.
pub open spec fn below_version(api: Seq<char>, rest: Seq<char>) -> Seq<char> {
    "/x-nmos/node/"@ + api + seq!['/'] + rest
}

/// The pieces of a path below a version, where the rest is one segment.
proof fn lemma_one_segment(api: Seq<char>, name: Seq<char>)
    requires
        !api.contains('/'),
        !name.contains('/'),
    ensures
        pieces(below_version(api, name), '/') == seq![
            Seq::<char>::empty(),
            "x-nmos"@,
            "node"@,
            api,
            name,
        ],
        below_version(api, name).len() == 14 + api.len() + name.len(),
{
    reveal_strlit("/x-nmos/node/");
    reveal_strlit("x-nmos");
    reveal_strlit("node");
    let e = Seq::<char>::empty();
    let s1 = e + seq!['/'];
    let s2 = s1 + "x-nmos"@;
    let s3 = s2 + seq!['/'];
    let s4 = s3 + "node"@;
    let s5 = s4 + seq!['/'];
    let s6 = s5 + api;
    let s7 = s6 + seq!['/'];
    let s8 = s7 + name;
    assert(pieces(e, '/') =~= seq![e]);
    lemma_pieces_separator(e, '/');
    assert(pieces(s1, '/') =~= seq![e, e]);
    lemma_pieces_append(s1, "x-nmos"@, '/');
    assert(e + "x-nmos"@ =~= "x-nmos"@);
    assert(pieces(s2, '/') =~= seq![e, "x-nmos"@]);
    lemma_pieces_separator(s2, '/');
    assert(pieces(s3, '/') =~= seq![e, "x-nmos"@, e]);
    lemma_pieces_append(s3, "node"@, '/');
    assert(e + "node"@ =~= "node"@);
    assert(pieces(s4, '/') =~= seq![e, "x-nmos"@, "node"@]);
    lemma_pieces_separator(s4, '/');
    assert(pieces(s5, '/') =~= seq![e, "x-nmos"@, "node"@, e]);
    lemma_pieces_append(s5, api, '/');
    assert(e + api =~= api);
    assert(pieces(s6, '/') =~= seq![e, "x-nmos"@, "node"@, api]);
    lemma_pieces_separator(s6, '/');
    assert(pieces(s7, '/') =~= seq![e, "x-nmos"@, "node"@, api, e]);
    lemma_pieces_append(s7, name, '/');
    assert(e + name =~= name);
    assert(pieces(s8, '/') =~= seq![e, "x-nmos"@, "node"@, api, name]);
    assert(s5 =~= "/x-nmos/node/"@);
    assert(s8 =~= below_version(api, name));
}

/// The pieces of a path below a version, where the rest is a segment, a
/// slash, and what follows the slash.
proof fn lemma_two_segments(api: Seq<char>, name: Seq<char>, tail: Seq<char>)
    requires
        !api.contains('/'),
        !name.contains('/'),
        !tail.contains('/'),
    ensures
        pieces(below_version(api, name + seq!['/'] + tail), '/') == seq![
            Seq::<char>::empty(),
            "x-nmos"@,
            "node"@,
            api,
            name,
            tail,
        ],
        below_version(api, name + seq!['/'] + tail).len() == 15 + api.len() + name.len()
            + tail.len(),
{
    lemma_one_segment(api, name);
    let e = Seq::<char>::empty();
    let s8 = below_version(api, name);
    let s9 = s8 + seq!['/'];
    let s10 = s9 + tail;
    lemma_pieces_separator(s8, '/');
    lemma_pieces_append(s9, tail, '/');
    assert(e + tail =~= tail);
    assert(pieces(s10, '/') =~= seq![e, "x-nmos"@, "node"@, api, name, tail]);
    assert(s10 =~= below_version(api, name + seq!['/'] + tail));
}

/// The names of the collections are what `collection_of` reads, and none of
/// them holds a slash.
proof fn lemma_collection_names(collection: Collection)
    ensures
        collection_of(collection_name(collection)) == Some(collection),
        !collection_name(collection).contains('/'),
        5 <= collection_name(collection).len() <= 9,
{
    reveal_strlit("devices");
    reveal_strlit("receivers");
    reveal_strlit("senders");
    reveal_strlit("sources");
    reveal_strlit("flows");
    let name = collection_name(collection);
    assert("receivers"@[0] != "devices"@[0]);
    assert("senders"@[0] != "devices"@[0]);
    assert("senders"@[0] != "receivers"@[0]);
    assert("sources"@[0] != "devices"@[0]);
    assert("sources"@[0] != "receivers"@[0]);
    assert("sources"@[1] != "senders"@[1]);
    assert("flows"@[0] != "devices"@[0]);
    assert("flows"@[0] != "receivers"@[0]);
    assert("flows"@[0] != "senders"@[0]);
    assert("flows"@[0] != "sources"@[0]);
}

/// The paths below a version stand for what their shape says: with a
/// version `api` and an identifier `id`, both not empty and without a slash,
/// `/x-nmos/node/{api}/self` is the node itself,
/// `/x-nmos/node/{api}/{collection}/` the list of a collection, and
/// `/x-nmos/node/{api}/{collection}/{id}` one resource of it.
pub proof fn lemma_routes(api: Seq<char>, collection: Collection, id: Seq<char>)
    requires
        api.len() > 0,
        !api.contains('/'),
        id.len() > 0,
        !id.contains('/'),
    ensures
        route_of(below_version(api, "self"@)) == (RouteView::SelfNode { api }),
        route_of(below_version(api, collection_name(collection) + seq!['/'])) == (RouteView::List {
            api,
            collection,
        }),
        route_of(below_version(api, collection_name(collection) + seq!['/'] + id)) == (
        RouteView::Item { api, collection, id }),
{
    reveal_strlit("/");
    reveal_strlit("/x-nmos/");
    reveal_strlit("/x-nmos/node/");
    reveal_strlit("/x-nmos/node/v1.0/");
    reveal_strlit("self");
    let name = collection_name(collection);
    lemma_collection_names(collection);
    assert(!"self"@.contains('/'));
    lemma_one_segment(api, "self"@);
    let e = Seq::<char>::empty();
    lemma_two_segments(api, name, e);
    assert(name + seq!['/'] + e =~= name + seq!['/']);
    lemma_two_segments(api, name, id);
}

/// What a path of the API stands for, with its parameters as text.
#[derive(Debug)]
pub enum Route<'a> {
    Root,
    XNmos,
    NodeApi,
    Version,
    SelfNode { api: &'a str },
    List { api: &'a str, collection: Collection },
    Item { api: &'a str, collection: Collection, id: &'a str },
    Unknown,
}

impl<'a> View for Route<'a> {
    type V = RouteView;

    open spec fn view(&self) -> RouteView {
        match *self {
            Route::Root => RouteView::Root,
            Route::XNmos => RouteView::XNmos,
            Route::NodeApi => RouteView::NodeApi,
            Route::Version => RouteView::Version,
            Route::SelfNode { api } => RouteView::SelfNode { api: api@ },
            Route::List { api, collection } => RouteView::List { api: api@, collection },
            Route::Item { api, collection, id } => RouteView::Item { api: api@, collection, id: id@ },
            Route::Unknown => RouteView::Unknown,
        }
    }
}

/// The collection that the characters of `v` from `from` up to `to` name.
pub fn collection(v: &Vec<char>, from: usize, to: usize) -> (r: Option<Collection>)
    requires
        from <= to <= v.len(),
    ensures
        r == collection_of(v@.subrange(from as int, to as int)),
{
    if range_is(v, from, to, "devices") {
        Some(Collection::Devices)
    } else if range_is(v, from, to, "receivers") {
        Some(Collection::Receivers)
    } else if range_is(v, from, to, "senders") {
        Some(Collection::Senders)
    } else if range_is(v, from, to, "sources") {
        Some(Collection::Sources)
    } else if range_is(v, from, to, "flows") {
        Some(Collection::Flows)
    } else {
        None
    }
}

/// What a path stands for.
pub fn route<'a>(path: &'a str) -> (r: Route<'a>)
    ensures
        r@ == route_of(path@),
{
    if str_eq(path, "/") {
        return Route::Root;
    }
    if str_eq(path, "/x-nmos/") {
        return Route::XNmos;
    }
    if str_eq(path, "/x-nmos/node/") {
        return Route::NodeApi;
    }
    if str_eq(path, "/x-nmos/node/v1.0/") {
        return Route::Version;
    }
    let v = chars_of(path);
    let p = split(&v, '/');
    if p.len() != 5 && p.len() != 6 {
        return Route::Unknown;
    }
    if p[0].0 != p[0].1 || !range_is(&v, p[1].0, p[1].1, "x-nmos") || !range_is(
        &v,
        p[2].0,
        p[2].1,
        "node",
    ) || p[3].0 == p[3].1 {
        return Route::Unknown;
    }
    let api = path.substring_char(p[3].0, p[3].1);
    if p.len() == 5 {
        if range_is(&v, p[4].0, p[4].1, "self") {
            Route::SelfNode { api }
        } else {
            Route::Unknown
        }
    } else {
        match collection(&v, p[4].0, p[4].1) {
            Some(collection) => {
                if p[5].0 == p[5].1 {
                    Route::List { api, collection }
                } else {
                    let id = path.substring_char(p[5].0, p[5].1);
                    Route::Item { api, collection, id }
                }
            },
            None => Route::Unknown,
        }
    }
}

/// The message for a path that the API does not have.
pub open spec fn no_path_message(uri: Seq<char>) -> Seq<char> {
    "No such path: "@ + uri
}

/// Whether `response` is a success that lists `names`.
pub open spec fn lists_paths(response: Response, names: Seq<Seq<char>>) -> bool {
    &&& response.status == Status::Success
    &&& response.body matches Body::Paths(list)
    &&& texts(list@) == names
}

/// Whether `response` is the answer to a request for the node itself.
pub open spec fn answers_self(model: Model, response: Response) -> bool {
    if model.nodes@.len() > 0 {
        &&& response.status == Status::Success
        &&& response.body matches Body::Node(NodeJson::V1_0(json))
        &&& is_node_v1_0(model.nodes@[0], json)
    } else {
        reports(response, Status::NotFound, None)
    }
}

/// Whether `response` is the answer to a request for all resources of a
/// collection: a success with their v1.0 forms, in the order of the model.
pub open spec fn answers_list(model: Model, collection: Collection, response: Response) -> bool {
    &&& response.status == Status::Success
    &&& match collection {
        Collection::Devices => response.body matches Body::Devices(list) && lists_devices(
            model,
            list@,
        ),
        Collection::Receivers => response.body matches Body::Receivers(list) && lists_receivers(
            model,
            list@,
        ),
        Collection::Senders => response.body matches Body::Senders(list) && lists_senders(
            model,
            list@,
        ),
        Collection::Sources => response.body matches Body::Sources(list) && lists_sources(
            model,
            list@,
        ),
        Collection::Flows => response.body matches Body::Flows(list) && lists_flows(model, list@),
    }
}

/// Whether `response` is the answer to a request for the resource of a
/// collection with an identifier: a success with its v1.0 form, or status 404
/// with a message that names the kind and the identifier.
pub open spec fn answers_item(
    model: Model,
    collection: Collection,
    id: u128,
    response: Response,
) -> bool {
    match collection {
        Collection::Devices => match lookup(model.devices@, id) {
            Some(device) => response.status == Status::Success && (
            response.body matches Body::Device(DeviceJson::V1_0(json)) && is_device_v1_0(
                device,
                json,
            )),
            None => reports(response, Status::NotFound, Some(missing_message("Device"@, id))),
        },
        Collection::Receivers => match lookup(model.receivers@, id) {
            Some(receiver) => response.status == Status::Success && (
            response.body matches Body::Receiver(ReceiverJson::V1_0(json)) && is_receiver_v1_0(
                receiver,
                json,
            )),
            None => reports(response, Status::NotFound, Some(missing_message("Receiver"@, id))),
        },
        Collection::Senders => match lookup(model.senders@, id) {
            Some(sender) => response.status == Status::Success && (
            response.body matches Body::Sender(SenderJson::V1_0(json)) && is_sender_v1_0(
                sender,
                json,
            )),
            None => reports(response, Status::NotFound, Some(missing_message("Sender"@, id))),
        },
        Collection::Sources => match lookup(model.sources@, id) {
            Some(source) => response.status == Status::Success && (
            response.body matches Body::Source(SourceJson::V1_0(json)) && is_source_v1_0(
                source,
                json,
            )),
            None => reports(response, Status::NotFound, Some(missing_message("Source"@, id))),
        },
        Collection::Flows => match lookup(model.flows@, id) {
            Some(flow) => response.status == Status::Success && (
            response.body matches Body::Flow(FlowJson::V1_0(json)) && is_flow_v1_0(flow, json)),
            None => reports(response, Status::NotFound, Some(missing_message("Flow"@, id))),
        },
    }
}

/// Whether `response` is what the node answers to a request with the given
/// method and target.
///
/// A path that the API does not have gives status 404 with the target in the
/// message, whatever the method. A path of the API takes GET only; another
/// method gives status 405. Below a version, an identifier that is no UUID
/// gives status 400 without a message; then a version that is malformed or
/// not supported gives status 400 with its message; then the resource is
/// looked up.
pub open spec fn answers(model: Model, method: Seq<char>, uri: Seq<char>, response: Response) -> bool {
    let route = route_of(path_of(uri));
    if route is Unknown {
        reports(response, Status::NotFound, Some(no_path_message(uri)))
    } else if method != "GET"@ {
        reports(response, Status::MethodNotAllowed, None)
    } else {
        match route {
            RouteView::Root => lists_paths(response, seq!["x-manifest/"@, "x-nmos/"@]),
            RouteView::XNmos => lists_paths(response, seq!["node/"@]),
            RouteView::NodeApi => lists_paths(response, seq!["v1.0/"@]),
            RouteView::Version => lists_paths(
                response,
                seq![
                    "devices/"@,
                    "flows/"@,
                    "receivers/"@,
                    "self/"@,
                    "senders/"@,
                    "sources/"@,
                ],
            ),
            RouteView::SelfNode { api } => match version_error(api) {
                Some((status, debug)) => reports(response, status, debug),
                None => answers_self(model, response),
            },
            RouteView::List { api, collection } => match version_error(api) {
                Some((status, debug)) => reports(response, status, debug),
                None => answers_list(model, collection, response),
            },
            RouteView::Item { api, collection, id } => match parsed_uuid(id) {
                None => reports(response, Status::BadRequest, None),
                Some(id) => match version_error(api) {
                    Some((status, debug)) => reports(response, status, debug),
                    None => answers_item(model, collection, id, response),
                },
            },
            RouteView::Unknown => false,
        }
    }
}

/// A success that lists `names`.
pub fn paths(names: Vec<&str>) -> (response: Response)
    ensures
        lists_paths(response, Seq::new(names@.len(), |i: int| names@[i]@)),
{
    let mut list: Vec<String> = Vec::new();
    let mut i: usize = 0;
    while i < names.len()
        invariant
            i <= names.len(),
            list@.len() == i,
            forall|k: int| 0 <= k < i ==> list@[k]@ == names@[k]@,
        decreases names.len() - i,
    {
        list.push(names[i].to_owned());
        i = i + 1;
    }
    assert(texts(list@) =~= Seq::new(names@.len(), |i: int| names@[i]@));
    Response { status: Status::Success, body: Body::Paths(list) }
}

/// The names below the root.
pub fn root_paths() -> (response: Response)
    ensures
        lists_paths(response, seq!["x-manifest/"@, "x-nmos/"@]),
{
    let names = vec!["x-manifest/", "x-nmos/"];
    assert(Seq::new(names@.len(), |i: int| names@[i]@) =~= seq!["x-manifest/"@, "x-nmos/"@]);
    paths(names)
}

/// The names below `/x-nmos/`.
pub fn x_nmos_paths() -> (response: Response)
    ensures
        lists_paths(response, seq!["node/"@]),
{
    let names = vec!["node/"];
    assert(Seq::new(names@.len(), |i: int| names@[i]@) =~= seq!["node/"@]);
    paths(names)
}

/// The names below `/x-nmos/node/`: the versions of the API.
pub fn node_api_paths() -> (response: Response)
    ensures
        lists_paths(response, seq!["v1.0/"@]),
{
    let names = vec!["v1.0/"];
    assert(Seq::new(names@.len(), |i: int| names@[i]@) =~= seq!["v1.0/"@]);
    paths(names)
}

/// The names below a version of the API.
pub fn version_paths() -> (response: Response)
    ensures
        lists_paths(
            response,
            seq!["devices/"@, "flows/"@, "receivers/"@, "self/"@, "senders/"@, "sources/"@],
        ),
{
    let names = vec!["devices/", "flows/", "receivers/", "self/", "senders/", "sources/"];
    assert(Seq::new(names@.len(), |i: int| names@[i]@) =~= seq![
        "devices/"@,
        "flows/"@,
        "receivers/"@,
        "self/"@,
        "senders/"@,
        "sources/"@,
    ]);
    paths(names)
}

/// The path of a request target: what stands before the first question mark.
pub fn path<'a>(uri: &'a str) -> (r: &'a str)
    ensures
        r@ == path_of(uri@),
{
    let v = chars_of(uri);
    let mut at: usize = 0;
    while at < v.len() && v[at] != '?'
        invariant
            at <= v.len(),
            v@ == uri@,
            forall|j: int| 0 <= j < at ==> uri@[j] != '?',
        decreases v.len() - at,
    {
        at = at + 1;
    }
    proof {
        uri@.index_of_first_ensures('?');
        if at < v.len() {
            assert(uri@[at as int] == '?');
            let first = uri@.index_of_first('?')->0;
            if first < at {
                assert(uri@[first] != '?');
            }
        } else {
            assert(!uri@.contains('?'));
            assert(uri@.subrange(0, at as int) =~= uri@);
        }
    }
    uri.substring_char(0, at)
}

/// The answer of the node to a request with the given method and target.
pub fn respond(method: &str, uri: &str, model: &Model) -> (response: Response)
    ensures
        answers(*model, method@, uri@, response),
{
    let route = route(path(uri));
    if let Route::Unknown = route {
        let mut message = String::from_str("No such path: ");
        message.append(uri);
        return ServiceError::new(Status::NotFound, Some(message)).into_response();
    }
    if !str_eq(method, "GET") {
        return response::method_not_allowed();
    }
    match route {
        Route::Root => root_paths(),
        Route::XNmos => x_nmos_paths(),
        Route::NodeApi => node_api_paths(),
        Route::Version => version_paths(),
        Route::SelfNode { api } => match get_self(api, model) {
            Ok(node) => Response { status: Status::Success, body: Body::Node(node) },
            Err(e) => e.into_response(),
        },
        Route::List { api, collection } => match collection {
            Collection::Devices => match get_devices(api, model) {
                Ok(list) => Response { status: Status::Success, body: Body::Devices(list) },
                Err(e) => e.into_response(),
            },
            Collection::Receivers => match get_receivers(api, model) {
                Ok(list) => Response { status: Status::Success, body: Body::Receivers(list) },
                Err(e) => e.into_response(),
            },
            Collection::Senders => match get_senders(api, model) {
                Ok(list) => Response { status: Status::Success, body: Body::Senders(list) },
                Err(e) => e.into_response(),
            },
            Collection::Sources => match get_sources(api, model) {
                Ok(list) => Response { status: Status::Success, body: Body::Sources(list) },
                Err(e) => e.into_response(),
            },
            Collection::Flows => match get_flows(api, model) {
                Ok(list) => Response { status: Status::Success, body: Body::Flows(list) },
                Err(e) => e.into_response(),
            },
        },
        Route::Item { api, collection, id } => {
            let id = match parse_uuid(id) {
                Some(id) => id,
                None => {
                    return ServiceError::new(Status::BadRequest, None).into_response();
                },
            };
            match collection {
                Collection::Devices => match get_device(api, id, model) {
                    Ok(item) => Response { status: Status::Success, body: Body::Device(item) },
                    Err(e) => e.into_response(),
                },
                Collection::Receivers => match get_receiver(api, id, model) {
                    Ok(item) => Response { status: Status::Success, body: Body::Receiver(item) },
                    Err(e) => e.into_response(),
                },
                Collection::Senders => match get_sender(api, id, model) {
                    Ok(item) => Response { status: Status::Success, body: Body::Sender(item) },
                    Err(e) => e.into_response(),
                },
                Collection::Sources => match get_source(api, id, model) {
                    Ok(item) => Response { status: Status::Success, body: Body::Source(item) },
                    Err(e) => e.into_response(),
                },
                Collection::Flows => match get_flow(api, id, model) {
                    Ok(item) => Response { status: Status::Success, body: Body::Flow(item) },
                    Err(e) => e.into_response(),
                },
            }
        },
        Route::Unknown => response::not_found(),
    }
}

} // verus!
