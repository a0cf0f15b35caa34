use nmos_node::error::Error;
use nmos_node::mdns::{
    IpAddress, NmosMdnsEvent, NmosMdnsService, ServiceDiscovery, ServiceRegistration, TxtRecord,
};
use nmos_node::node::{absorb, mdns_tick, MdnsTick, Node, NodeBuilder, MDNS_POLL_INTERVAL_MS, NODE_PORT};
use nmos_node::registry::RegistryTable;
use nmos_node::resource;
use nmos_node::resource::{DeviceType, Format, ResourceBundle, Transport};
use nmos_node::service::Status;
use nmos_node::tai::TaiTime;

fn stamp() -> TaiTime {
    TaiTime::from_unix(5, 5)
}

fn discovery(pri: &str, address: &str) -> ServiceDiscovery {
    let entries = [("api_proto", "http"), ("api_ver", "v1.0"), ("api_auth", "false"), ("pri", pri)]
        .iter()
        .map(|(k, v)| (k.to_string(), v.to_string()))
        .collect();
    ServiceDiscovery {
        name: String::from("reg"),
        address: Some(IpAddress::V4(address.to_string())),
        port: 4001,
        txt: Some(TxtRecord { entries }),
    }
}

#[test]
fn the_node_listens_on_port_3000_and_polls_ten_times_a_second() {
    assert_eq!(NODE_PORT, 3000);
    assert_eq!(MDNS_POLL_INTERVAL_MS, 100);
    assert_eq!(mdns_tick(false), MdnsTick::Poll(100));
    assert_eq!(mdns_tick(true), MdnsTick::Stop);
}

#[test]
fn a_node_is_built_from_resources() {
    let mut b = Node::builder();
    let n = resource::Node::builder("n", "http://h/").build_with(1, stamp());
    let d = resource::Device::builder("d", &n, DeviceType::Generic).build_with(2, stamp());
    let s = resource::Source::builder("s", &d, Format::Video).build_with(3, stamp());
    let f = resource::Flow::builder("f", &s).build_with(4, stamp());
    let x = resource::Sender::builder("x", &d, &f, Transport::Rtp).build_with(5, stamp());
    let r = resource::Receiver::builder("r", &d, Format::Video, Transport::Rtp).build_with(6, stamp());
    b.node(n);
    b.device(d);
    b.source(s);
    b.flow(f);
    b.sender(x);
    b.receiver(r);
    let node = b.build();
    assert_eq!(node.validate(), Ok(()));
    let m = node.model();
    assert_eq!(m.get_node(1).unwrap().core.label, "n");
    assert_eq!(m.get_device(2).unwrap().core.label, "d");
    assert_eq!(m.get_source(3).unwrap().core.label, "s");
    assert_eq!(m.get_flow(4).unwrap().core.label, "f");
    assert_eq!(m.get_sender(5).unwrap().core.label, "x");
    assert_eq!(m.get_receiver(6).unwrap().core.label, "r");
    assert_eq!(node.respond("GET", "/x-nmos/node/v1.0/self").status, Status::Success);
    assert_eq!(node.respond("GET", "/x").status, Status::NotFound);
}

#[test]
fn a_node_without_node_resource_cannot_start() {
    assert_eq!(NodeBuilder::new().build().validate(), Err(Error::Fatal));
    assert_eq!(Node::builder_from_resources(ResourceBundle::new()).build().validate(), Err(Error::Fatal));
    let mut bundle = ResourceBundle::new();
    bundle.insert_node(resource::Node::builder("n", "h").build_with(1, stamp()));
    bundle.insert_node(resource::Node::builder("m", "h").build_with(2, stamp()));
    let node = NodeBuilder::from_resources(bundle).build();
    assert_eq!(node.validate(), Ok(()));
    assert_eq!(node.model().list_nodes().len(), 2);
}

#[test]
fn discoveries_of_registries_fill_the_table() {
    let mut table = RegistryTable::new();
    absorb(&mut table, NmosMdnsEvent::Discovery(NmosMdnsService::Registration, Ok(discovery("50", "10.0.0.1"))));
    absorb(&mut table, NmosMdnsEvent::Discovery(NmosMdnsService::Registration, Ok(discovery("10", "10.0.0.2"))));
    assert_eq!(table.len(), 2);
    absorb(&mut table, NmosMdnsEvent::Discovery(NmosMdnsService::Registration, Ok(discovery("10", "10.0.0.2"))));
    assert_eq!(table.len(), 2);
    let first = table.pop().unwrap();
    assert_eq!(first.pri, 10);
    assert_eq!(first.url, "http://10.0.0.2:4001/x-nmos/registration/");
}

#[test]
fn other_events_leave_the_table_as_it_is() {
    let mut table = RegistryTable::new();
    absorb(&mut table, NmosMdnsEvent::Discovery(NmosMdnsService::Registration, Err(String::from("timeout"))));
    absorb(&mut table, NmosMdnsEvent::Discovery(NmosMdnsService::Registration, Ok(discovery("x", "10.0.0.1"))));
    let registration = ServiceRegistration {
        name: String::from("n"),
        service_type: String::from("_nmos-node._tcp"),
        domain: String::from("local"),
    };
    absorb(&mut table, NmosMdnsEvent::Registration(NmosMdnsService::Node, Ok(registration)));
    absorb(&mut table, NmosMdnsEvent::Registration(NmosMdnsService::Node, Err(String::from("no"))));
    let mut no_txt = discovery("1", "10.0.0.1");
    no_txt.txt = None;
    absorb(&mut table, NmosMdnsEvent::Discovery(NmosMdnsService::Registration, Ok(no_txt)));
    assert!(table.is_empty());
}
