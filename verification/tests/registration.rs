use nmos_node::error::Error;
use nmos_node::mdns::NmosMdnsRegistry;
use nmos_node::model::Model;
use nmos_node::registration::{
    PostRequest, RegistrationApi, HEARTBEAT_INTERVAL_MS, RETRY_DELAY_MS,
};
use nmos_node::resource::{
    Device, DeviceType, Flow, Format, Node, Receiver, ResourceKind, Sender, Source, Transport,
};
use nmos_node::schema::is_04::v1_0_x::ResourceData;
use nmos_node::tai::TaiTime;
use nmos_node::version::APIVersion;

const N: u128 = 0x67e5504410b1426f9247bb680e5fe0c8;

fn stamp() -> TaiTime {
    TaiTime::from_unix(100, 1)
}

fn registry(url: &str) -> NmosMdnsRegistry {
    NmosMdnsRegistry {
        api_proto: String::from("http"),
        api_ver: vec![APIVersion { major: 1, minor: 0 }],
        api_auth: false,
        pri: 100,
        url: url.to_string(),
    }
}

fn node() -> Node {
    Node::builder("n", "http://h/").build_with(N, stamp())
}

fn full_model() -> Model {
    let mut m = Model::new();
    let n = node();
    let d1 = Device::builder("d1", &n, DeviceType::Generic).build_with(21, stamp());
    let d2 = Device::builder("d2", &n, DeviceType::Generic).build_with(22, stamp());
    let s = Source::builder("s", &d1, Format::Video).build_with(31, stamp());
    let f1 = Flow::builder("f1", &s).build_with(41, stamp());
    let f2 = Flow::builder("f2", &s).build_with(42, stamp());
    let x = Sender::builder("x", &d1, &f1, Transport::Rtp).build_with(51, stamp());
    let r1 = Receiver::builder("r1", &d2, Format::Video, Transport::Rtp).build_with(61, stamp());
    let r2 = Receiver::builder("r2", &d1, Format::Video, Transport::Rtp).build_with(62, stamp());
    m.insert_node(n).unwrap();
    m.insert_device(d1).unwrap();
    m.insert_device(d2).unwrap();
    m.insert_source(s).unwrap();
    m.insert_flow(f1).unwrap();
    m.insert_flow(f2).unwrap();
    m.insert_sender(x).unwrap();
    m.insert_receiver(r1).unwrap();
    m.insert_receiver(r2).unwrap();
    m
}

fn kind_of(request: &PostRequest) -> String {
    request.body.as_ref().unwrap().type_.clone()
}

#[test]
fn the_delays_are_five_seconds() {
    assert_eq!(RETRY_DELAY_MS, 5000);
    assert_eq!(HEARTBEAT_INTERVAL_MS, 5000);
    assert!(4500 <= HEARTBEAT_INTERVAL_MS && HEARTBEAT_INTERVAL_MS <= 5500);
}

#[test]
fn names_of_the_kinds() {
    assert_eq!(ResourceKind::Node.to_string(), "node");
    assert_eq!(ResourceKind::Device.to_string(), "device");
    assert_eq!(ResourceKind::Source.to_string(), "source");
    assert_eq!(ResourceKind::Flow.to_string(), "flow");
    assert_eq!(ResourceKind::Sender.to_string(), "sender");
    assert_eq!(ResourceKind::Receiver.to_string(), "receiver");
}

#[test]
fn the_urls_of_a_registry() {
    let r = registry("http://10.0.0.5:4001/x-nmos/registration/");
    assert_eq!(
        RegistrationApi::resource_endpoint(&r),
        Some(String::from("http://10.0.0.5:4001/x-nmos/registration/v1.0/resource"))
    );
    assert_eq!(
        RegistrationApi::heartbeat_endpoint(&r, N),
        Some(String::from(
            "http://10.0.0.5:4001/x-nmos/registration/v1.0/health/nodes/67e55044-10b1-426f-9247-bb680e5fe0c8"
        ))
    );
}

#[test]
fn the_urls_of_a_registry_at_the_root() {
    let r = registry("http://10.0.0.5:4001");
    assert_eq!(
        RegistrationApi::resource_endpoint(&r),
        Some(String::from("http://10.0.0.5:4001/v1.0/resource"))
    );
    assert_eq!(
        RegistrationApi::heartbeat_endpoint(&r, 1),
        Some(String::from(
            "http://10.0.0.5:4001/v1.0/health/nodes/00000000-0000-0000-0000-000000000001"
        ))
    );
}

#[test]
fn a_registry_whose_url_is_none_has_no_urls() {
    let r = registry("not a url");
    assert_eq!(RegistrationApi::resource_endpoint(&r), None);
    assert_eq!(RegistrationApi::heartbeat_endpoint(&r, 1), None);
    assert!(matches!(
        RegistrationApi::register_resources(&full_model(), &r),
        Err(Error::TransportError)
    ));
}

#[test]
fn the_plan_goes_by_kind_and_then_by_the_order_of_the_model() {
    let plan = RegistrationApi::plan(&full_model());
    assert_eq!(
        plan,
        vec![
            (ResourceKind::Node, N),
            (ResourceKind::Device, 21),
            (ResourceKind::Device, 22),
            (ResourceKind::Source, 31),
            (ResourceKind::Flow, 41),
            (ResourceKind::Flow, 42),
            (ResourceKind::Sender, 51),
            (ResourceKind::Receiver, 61),
            (ResourceKind::Receiver, 62),
        ]
    );
}

#[test]
fn the_plan_of_a_model_without_node_is_empty() {
    assert!(RegistrationApi::plan(&Model::new()).is_empty());
    assert!(matches!(
        RegistrationApi::register_resources(&Model::new(), &registry("http://10.0.0.5:4001")),
        Err(Error::NotFound)
    ));
}

#[test]
fn the_plan_skips_kinds_without_members_only() {
    let mut m = Model::new();
    let n = node();
    let d = Device::builder("d", &n, DeviceType::Generic).build_with(2, stamp());
    let r = Receiver::builder("r", &d, Format::Video, Transport::Rtp).build_with(3, stamp());
    m.insert_node(n).unwrap();
    m.insert_device(d).unwrap();
    m.insert_receiver(r).unwrap();
    assert_eq!(
        RegistrationApi::plan(&m),
        vec![(ResourceKind::Node, N), (ResourceKind::Device, 2), (ResourceKind::Receiver, 3)]
    );
    let requests =
        RegistrationApi::register_resources(&m, &registry("http://10.0.0.5:4001")).unwrap();
    let kinds: Vec<String> = requests.iter().map(kind_of).collect();
    assert_eq!(kinds, vec!["node", "device", "receiver"]);
    for request in &requests {
        assert_eq!(request.url, "http://10.0.0.5:4001/v1.0/resource");
    }
}

#[test]
fn the_requests_for_a_model_come_in_the_order_of_the_plan() {
    let m = full_model();
    let requests = RegistrationApi::register_resources(
        &m,
        &registry("http://10.0.0.5:4001/x-nmos/registration/"),
    )
    .unwrap();
    let kinds: Vec<String> = requests.iter().map(kind_of).collect();
    assert_eq!(
        kinds,
        vec!["node", "device", "device", "source", "flow", "flow", "sender", "receiver", "receiver"]
    );
    let ids: Vec<String> = requests
        .iter()
        .map(|r| match &r.body.as_ref().unwrap().data {
            ResourceData::Node(j) => j.id.clone(),
            ResourceData::Device(j) => j.id.clone(),
            ResourceData::Source(j) => j.id.clone(),
            ResourceData::Flow(j) => j.id.clone(),
            ResourceData::Sender(j) => j.id.clone(),
            ResourceData::Receiver(j) => j.id.clone(),
        })
        .collect();
    let expected: Vec<String> = [N, 21, 22, 31, 41, 42, 51, 61, 62]
        .iter()
        .map(|id| uuid::Uuid::from_u128(*id).to_string())
        .collect();
    assert_eq!(ids, expected);
    for request in &requests {
        assert_eq!(request.url, "http://10.0.0.5:4001/x-nmos/registration/v1.0/resource");
    }
}

#[test]
fn the_body_of_a_request_is_type_and_data() {
    let request = RegistrationApi::register_node("http://r/v1.0/resource", &node());
    assert_eq!(request.url, "http://r/v1.0/resource");
    assert_eq!(
        request.body_text(),
        "{\"type\":\"node\",\"data\":{\"id\":\"67e55044-10b1-426f-9247-bb680e5fe0c8\",\
         \"version\":\"137:1\",\"label\":\"n\",\"href\":\"http://h/\",\"caps\":{},\
         \"services\":[]}}"
    );
    let heartbeat = PostRequest { url: String::from("http://r/"), body: None };
    assert_eq!(heartbeat.body_text(), "");
}

#[test]
fn a_request_for_each_kind() {
    let m = full_model();
    let url = "http://r/";
    let d = RegistrationApi::register_device(url, m.get_device(21).unwrap());
    assert!(matches!(d.body.as_ref().unwrap().data, ResourceData::Device(_)));
    assert_eq!(kind_of(&d), "device");
    let s = RegistrationApi::register_source(url, m.get_source(31).unwrap());
    assert!(matches!(s.body.as_ref().unwrap().data, ResourceData::Source(_)));
    assert_eq!(kind_of(&s), "source");
    let f = RegistrationApi::register_flow(url, m.get_flow(41).unwrap());
    assert!(matches!(f.body.as_ref().unwrap().data, ResourceData::Flow(_)));
    assert_eq!(kind_of(&f), "flow");
    let x = RegistrationApi::register_sender(url, m.get_sender(51).unwrap());
    assert!(matches!(x.body.as_ref().unwrap().data, ResourceData::Sender(_)));
    assert_eq!(kind_of(&x), "sender");
    let r = RegistrationApi::register_receiver(url, m.get_receiver(61).unwrap());
    assert!(matches!(r.body.as_ref().unwrap().data, ResourceData::Receiver(_)));
    assert_eq!(kind_of(&r), "receiver");
    assert!(r.body_text().starts_with("{\"type\":\"receiver\",\"data\":{\"id\":"));
}

#[test]
fn a_request_for_a_resource_by_kind_and_identifier() {
    let m = full_model();
    let r = RegistrationApi::register_resource("http://r/", &m, ResourceKind::Flow, 42).unwrap();
    assert_eq!(kind_of(&r), "flow");
    match &r.body.as_ref().unwrap().data {
        ResourceData::Flow(j) => assert_eq!(j.label, "f2"),
        _ => panic!("no flow"),
    }
    assert!(matches!(
        RegistrationApi::register_resource("http://r/", &m, ResourceKind::Flow, 21),
        Err(Error::NotFound)
    ));
    assert!(matches!(
        RegistrationApi::register_resource("http://r/", &m, ResourceKind::Node, 21),
        Err(Error::NotFound)
    ));
    for (kind, id) in RegistrationApi::plan(&m) {
        assert!(RegistrationApi::register_resource("http://r/", &m, kind, id).is_ok());
    }
}
