use nmos_node::error::Error;
use nmos_node::resource::{
    Device, DeviceJson, DeviceType, Flow, FlowJson, Format, Node, NodeJson, NodeService, Receiver,
    ReceiverJson, ResourceBundle, ResourceCore, ResourceCoreBuilder, Sender, SenderJson, Source,
    SourceJson, Transport,
};
use nmos_node::tai::TaiTime;
use nmos_node::version::is_04::v1_0;
use nmos_node::version::APIVersion;

const N: u128 = 0x67e5504410b1426f9247bb680e5fe0c8;
const D: u128 = 0x00000000000000000000000000000001;
const S: u128 = 0xffffffffffffffffffffffffffffffff;
const F: u128 = 0xa1a2a3a4b1b2c1c2d1d2d3d4d5d6d7d8;
const X: u128 = 0x0123456789abcdef0123456789abcdef;
const R: u128 = 0x10000000000000000000000000000000;

fn stamp() -> TaiTime {
    TaiTime::from_unix(1_441_974_448, 90)
}

fn node() -> Node {
    Node::builder("test", "http://127.0.0.1:3000/").build_with(N, stamp())
}

fn device() -> Device {
    Device::builder("dev", &node(), DeviceType::Pipeline).build_with(D, stamp())
}

fn source() -> Source {
    Source::builder("src", &device(), Format::Video).description("a source").build_with(S, stamp())
}

fn flow() -> Flow {
    Flow::builder("flw", &source()).tag("b", &["2"]).tag("a", &["1", "0"]).build_with(F, stamp())
}

#[test]
fn urns_of_formats_transports_and_device_types() {
    assert_eq!(Format::Video.to_string(), "urn:x-nmos:format:video");
    assert_eq!(Format::Audio.to_string(), "urn:x-nmos:format:audio");
    assert_eq!(Format::Data.to_string(), "urn:x-nmos:format:data");
    assert_eq!(Transport::Rtp.to_string(), "urn:x-nmos:transport:rtp");
    assert_eq!(Transport::RtpUnicast.to_string(), "urn:x-nmos:transport:rtp.ucast");
    assert_eq!(Transport::RtpMulticast.to_string(), "urn:x-nmos:transport:rtp.mcast");
    assert_eq!(Transport::Dash.to_string(), "urn:x-nmos:transport:dash");
    assert_eq!(DeviceType::Generic.to_string(), "urn:x-nmos:device:generic");
    assert_eq!(DeviceType::Pipeline.to_string(), "urn:x-nmos:device:pipeline");
}

#[test]
fn core_builder_collects_label_description_and_tags() {
    let b = ResourceCoreBuilder::new("label");
    assert_eq!(b.label, "label");
    assert_eq!(b.description, None);
    assert!(b.tags.is_empty());
    let b = b.description("words").tag("k", &["v1", "v2"]);
    assert_eq!(b.description, Some(String::from("words")));
    assert_eq!(b.tags.len(), 1);
    assert_eq!(b.tags.get("k"), Some(&vec![String::from("v1"), String::from("v2")]));
    let core = b.build_with(5, stamp());
    assert_eq!(core.id, 5);
    assert_eq!(core.version, stamp());
    assert_eq!(core.label, "label");
    assert_eq!(core.description, "words");
    assert_eq!(core.tags.len(), 1);
}

#[test]
fn core_without_description_has_an_empty_one() {
    let core = ResourceCore::builder("").build_with(1, stamp());
    assert_eq!(core.label, "");
    assert_eq!(core.description, "");
    assert!(core.tags.is_empty());
}

#[test]
fn built_resources_get_a_random_version_4_identifier_and_the_time() {
    let a = ResourceCoreBuilder::new("a").build();
    let b = ResourceCoreBuilder::new("b").build();
    assert_ne!(a.id, b.id);
    for id in [a.id, b.id] {
        assert_eq!((id >> 76) & 0xf, 4);
        assert_eq!((id >> 62) & 0x3, 2);
    }
    assert!(a.version.seconds() > 1_600_000_000);
    assert!(a.version.le(&b.version) || b.version.le(&a.version));
    let n = Node::builder("n", "h").build();
    assert_eq!((n.core.id >> 76) & 0xf, 4);
    let d = Device::builder("d", &n, DeviceType::Generic).build();
    assert_eq!(d.node_id, n.core.id);
    let s = Source::builder("s", &d, Format::Audio).build();
    assert_eq!(s.device_id, d.core.id);
    let f = Flow::builder("f", &s).build();
    assert_eq!(f.source_id, s.core.id);
    assert_eq!(f.format, Format::Audio);
    let x = Sender::builder("x", &d, &f, Transport::Dash).build();
    assert_eq!(x.flow_id, f.core.id);
    assert_eq!(x.device_id, d.core.id);
    assert_eq!(x.manifest_href, "");
    let r = Receiver::builder("r", &d, Format::Data, Transport::Rtp).build();
    assert_eq!(r.device_id, d.core.id);
    assert_eq!(r.subscription, None);
}

#[test]
fn node_in_v1_0() {
    let n = Node::builder("test", "http://127.0.0.1:3000/")
        .with_service(NodeService { href: String::from("http://a/"), type_: String::from("urn:x") })
        .build_with(N, stamp());
    let NodeJson::V1_0(json) = n.to_json(&v1_0()).unwrap();
    assert_eq!(json.id, "67e55044-10b1-426f-9247-bb680e5fe0c8");
    assert_eq!(json.version, "1441974485:90");
    assert_eq!(json.label, "test");
    assert_eq!(json.href, "http://127.0.0.1:3000/");
    assert_eq!(json.hostname, None);
    assert_eq!(json.services.len(), 1);
    assert_eq!(json.services[0].href, "http://a/");
    assert_eq!(json.services[0].type_, "urn:x");
    assert_eq!(
        json.to_json().to_string(),
        "{\"id\":\"67e55044-10b1-426f-9247-bb680e5fe0c8\",\"version\":\"1441974485:90\",\
         \"label\":\"test\",\"href\":\"http://127.0.0.1:3000/\",\"caps\":{},\
         \"services\":[{\"href\":\"http://a/\",\"type\":\"urn:x\"}]}"
    );
}

#[test]
fn node_with_a_host_name() {
    let mut n = node();
    n.hostname = Some(String::from("host1"));
    let json = n.to_v1_0();
    assert_eq!(json.hostname, Some(String::from("host1")));
    assert_eq!(
        json.to_json().to_string(),
        "{\"id\":\"67e55044-10b1-426f-9247-bb680e5fe0c8\",\"version\":\"1441974485:90\",\
         \"label\":\"test\",\"href\":\"http://127.0.0.1:3000/\",\"hostname\":\"host1\",\
         \"caps\":{},\"services\":[]}"
    );
}

#[test]
fn device_in_v1_0() {
    let mut d = device();
    d.senders.push(X);
    d.receivers.push(R);
    d.receivers.push(S);
    let DeviceJson::V1_0(json) = d.to_json(&v1_0()).unwrap();
    assert_eq!(json.id, "00000000-0000-0000-0000-000000000001");
    assert_eq!(json.version, "1441974485:90");
    assert_eq!(json.label, "dev");
    assert_eq!(json.type_, "urn:x-nmos:device:pipeline");
    assert_eq!(json.node_id, "67e55044-10b1-426f-9247-bb680e5fe0c8");
    assert_eq!(json.senders, vec!["01234567-89ab-cdef-0123-456789abcdef"]);
    assert_eq!(
        json.receivers,
        vec!["10000000-0000-0000-0000-000000000000", "ffffffff-ffff-ffff-ffff-ffffffffffff"]
    );
    assert_eq!(
        json.to_json().to_string(),
        "{\"id\":\"00000000-0000-0000-0000-000000000001\",\"version\":\"1441974485:90\",\
         \"label\":\"dev\",\"type\":\"urn:x-nmos:device:pipeline\",\
         \"node_id\":\"67e55044-10b1-426f-9247-bb680e5fe0c8\",\
         \"senders\":[\"01234567-89ab-cdef-0123-456789abcdef\"],\
         \"receivers\":[\"10000000-0000-0000-0000-000000000000\",\
         \"ffffffff-ffff-ffff-ffff-ffffffffffff\"]}"
    );
}

#[test]
fn source_in_v1_0() {
    let mut s = source();
    s.parents.push(X);
    let SourceJson::V1_0(json) = s.to_json(&v1_0()).unwrap();
    assert_eq!(json.id, "ffffffff-ffff-ffff-ffff-ffffffffffff");
    assert_eq!(json.version, "1441974485:90");
    assert_eq!(json.label, "src");
    assert_eq!(json.description, "a source");
    assert_eq!(json.format, "urn:x-nmos:format:video");
    assert!(json.tags.is_empty());
    assert_eq!(json.device_id, "00000000-0000-0000-0000-000000000001");
    assert_eq!(json.parents, vec!["01234567-89ab-cdef-0123-456789abcdef"]);
    assert_eq!(
        json.to_json().to_string(),
        "{\"id\":\"ffffffff-ffff-ffff-ffff-ffffffffffff\",\"version\":\"1441974485:90\",\
         \"label\":\"src\",\"description\":\"a source\",\"format\":\"urn:x-nmos:format:video\",\
         \"caps\":{},\"tags\":{},\"device_id\":\"00000000-0000-0000-0000-000000000001\",\
         \"parents\":[\"01234567-89ab-cdef-0123-456789abcdef\"]}"
    );
}

#[test]
fn flow_in_v1_0_has_its_tags_in_the_order_of_the_keys() {
    let f = flow();
    assert_eq!(f.format, Format::Video);
    let FlowJson::V1_0(json) = f.to_json(&v1_0()).unwrap();
    assert_eq!(json.id, "a1a2a3a4-b1b2-c1c2-d1d2-d3d4d5d6d7d8");
    assert_eq!(json.source_id, "ffffffff-ffff-ffff-ffff-ffffffffffff");
    assert_eq!(json.description, "");
    assert_eq!(json.tags.len(), 2);
    assert_eq!(json.tags.key(0), "a");
    assert_eq!(json.tags.values(0), &vec![String::from("1"), String::from("0")]);
    assert_eq!(json.tags.key(1), "b");
    assert_eq!(
        json.to_json().to_string(),
        "{\"id\":\"a1a2a3a4-b1b2-c1c2-d1d2-d3d4d5d6d7d8\",\"version\":\"1441974485:90\",\
         \"label\":\"flw\",\"description\":\"\",\"format\":\"urn:x-nmos:format:video\",\
         \"tags\":{\"a\":[\"1\",\"0\"],\"b\":[\"2\"]},\
         \"source_id\":\"ffffffff-ffff-ffff-ffff-ffffffffffff\",\"parents\":[]}"
    );
}

#[test]
fn sender_without_tags_leaves_them_out() {
    let x = Sender::builder("snd", &device(), &flow(), Transport::RtpMulticast)
        .description("d")
        .manifest("http://m/sdp")
        .build_with(X, stamp());
    let SenderJson::V1_0(json) = x.to_json(&v1_0()).unwrap();
    assert!(json.tags.is_none());
    assert_eq!(json.flow_id, "a1a2a3a4-b1b2-c1c2-d1d2-d3d4d5d6d7d8");
    assert_eq!(json.device_id, "00000000-0000-0000-0000-000000000001");
    assert_eq!(json.transport, "urn:x-nmos:transport:rtp.mcast");
    assert_eq!(json.manifest_href, "http://m/sdp");
    assert_eq!(
        json.to_json().to_string(),
        "{\"id\":\"01234567-89ab-cdef-0123-456789abcdef\",\"version\":\"1441974485:90\",\
         \"label\":\"snd\",\"description\":\"d\",\
         \"flow_id\":\"a1a2a3a4-b1b2-c1c2-d1d2-d3d4d5d6d7d8\",\
         \"transport\":\"urn:x-nmos:transport:rtp.mcast\",\
         \"device_id\":\"00000000-0000-0000-0000-000000000001\",\
         \"manifest_href\":\"http://m/sdp\"}"
    );
}

#[test]
fn sender_with_tags_has_them() {
    let x = Sender::builder("snd", &device(), &flow(), Transport::Rtp)
        .tag("site", &["north"])
        .build_with(X, stamp());
    let json = x.to_v1_0();
    let tags = json.tags.as_ref().unwrap();
    assert_eq!(tags.len(), 1);
    assert_eq!(tags.key(0), "site");
    assert_eq!(
        json.to_json().to_string(),
        "{\"id\":\"01234567-89ab-cdef-0123-456789abcdef\",\"version\":\"1441974485:90\",\
         \"label\":\"snd\",\"description\":\"\",\
         \"flow_id\":\"a1a2a3a4-b1b2-c1c2-d1d2-d3d4d5d6d7d8\",\
         \"transport\":\"urn:x-nmos:transport:rtp\",\"tags\":{\"site\":[\"north\"]},\
         \"device_id\":\"00000000-0000-0000-0000-000000000001\",\"manifest_href\":\"\"}"
    );
}

#[test]
fn receiver_without_subscription_has_a_null_sender() {
    let r = Receiver::builder("rcv", &device(), Format::Audio, Transport::RtpUnicast)
        .description("in")
        .tag("t", &[])
        .build_with(R, stamp());
    let ReceiverJson::V1_0(json) = r.to_json(&v1_0()).unwrap();
    assert_eq!(json.subscription.sender_id, None);
    assert_eq!(json.format, "urn:x-nmos:format:audio");
    assert_eq!(json.transport, "urn:x-nmos:transport:rtp.ucast");
    assert_eq!(
        json.to_json().to_string(),
        "{\"id\":\"10000000-0000-0000-0000-000000000000\",\"version\":\"1441974485:90\",\
         \"label\":\"rcv\",\"description\":\"in\",\"format\":\"urn:x-nmos:format:audio\",\
         \"caps\":{},\"tags\":{\"t\":[]},\"device_id\":\"00000000-0000-0000-0000-000000000001\",\
         \"transport\":\"urn:x-nmos:transport:rtp.ucast\",\"subscription\":{\"sender_id\":null}}"
    );
}

#[test]
fn receiver_with_subscription_names_the_sender() {
    let mut r = Receiver::builder("rcv", &device(), Format::Audio, Transport::Rtp)
        .build_with(R, stamp());
    r.subscription = Some(X);
    let json = r.to_v1_0();
    assert_eq!(
        json.subscription.sender_id,
        Some(String::from("01234567-89ab-cdef-0123-456789abcdef"))
    );
    assert!(json
        .to_json()
        .to_string()
        .ends_with("\"subscription\":{\"sender_id\":\"01234567-89ab-cdef-0123-456789abcdef\"}}"));
}

#[test]
fn every_json_form_holds_the_version_stamp() {
    let stamp_text = stamp().to_string();
    assert_eq!(stamp_text, "1441974485:90");
    let x = Sender::builder("x", &device(), &flow(), Transport::Rtp).build_with(X, stamp());
    let r = Receiver::builder("r", &device(), Format::Data, Transport::Rtp).build_with(R, stamp());
    let texts = [
        node().to_v1_0().to_json().to_string(),
        device().to_v1_0().to_json().to_string(),
        source().to_v1_0().to_json().to_string(),
        flow().to_v1_0().to_json().to_string(),
        x.to_v1_0().to_json().to_string(),
        r.to_v1_0().to_json().to_string(),
    ];
    for text in texts {
        assert!(text.contains("\"version\":\"1441974485:90\""), "{}", text);
    }
    assert_eq!(node().to_v1_0().version, stamp_text);
}

#[test]
fn an_unsupported_version_has_no_json_form() {
    let api = APIVersion { major: 1, minor: 1 };
    let x = Sender::builder("x", &device(), &flow(), Transport::Rtp).build_with(X, stamp());
    let r = Receiver::builder("r", &device(), Format::Data, Transport::Rtp).build_with(R, stamp());
    assert!(matches!(node().to_json(&api), Err(Error::UnsupportedVersion)));
    assert!(matches!(device().to_json(&api), Err(Error::UnsupportedVersion)));
    assert!(matches!(source().to_json(&api), Err(Error::UnsupportedVersion)));
    assert!(matches!(flow().to_json(&api), Err(Error::UnsupportedVersion)));
    assert!(matches!(x.to_json(&api), Err(Error::UnsupportedVersion)));
    assert!(matches!(r.to_json(&api), Err(Error::UnsupportedVersion)));
}

#[test]
fn json_strings_are_escaped() {
    let n = Node::builder("a \"quoted\" label\n", "h\\").build_with(N, stamp());
    let text = n.to_v1_0().to_json().to_string();
    assert!(text.contains("\"label\":\"a \\\"quoted\\\" label\\n\""), "{}", text);
    assert!(text.contains("\"href\":\"h\\\\\""), "{}", text);
    let value: serde_json::Value = serde_json::from_str(&text).unwrap();
    assert_eq!(value["label"], "a \"quoted\" label\n");
    assert_eq!(value["href"], "h\\");
    assert_eq!(value["caps"], serde_json::Value::Object(serde_json::Map::new()));
}

#[test]
fn a_bundle_keeps_the_order_of_insertion() {
    let mut b = ResourceBundle::new();
    assert!(b.nodes.is_empty() && b.devices.is_empty() && b.sources.is_empty());
    assert!(b.flows.is_empty() && b.senders.is_empty() && b.receivers.is_empty());
    b.insert_node(node());
    b.insert_device(device());
    b.insert_device(Device::builder("d2", &node(), DeviceType::Generic).build_with(X, stamp()));
    b.insert_source(source());
    b.insert_flow(flow());
    b.insert_sender(Sender::builder("x", &device(), &flow(), Transport::Rtp).build_with(X, stamp()));
    b.insert_receiver(
        Receiver::builder("r", &device(), Format::Data, Transport::Rtp).build_with(R, stamp()),
    );
    assert_eq!(b.nodes.len(), 1);
    assert_eq!(b.devices.len(), 2);
    assert_eq!(b.devices[0].core.id, D);
    assert_eq!(b.devices[1].core.id, X);
    assert_eq!(b.sources.len(), 1);
    assert_eq!(b.flows.len(), 1);
    assert_eq!(b.senders.len(), 1);
    assert_eq!(b.receivers.len(), 1);
}
