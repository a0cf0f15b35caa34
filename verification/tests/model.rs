use nmos_node::error::Error;
use nmos_node::model::Model;
use nmos_node::resource::{
    Device, DeviceType, Flow, Format, Node, Receiver, ResourceBundle, Sender, Source, Transport,
};
use nmos_node::tai::TaiTime;

fn stamp() -> TaiTime {
    TaiTime::from_unix(100, 0)
}

fn node(id: u128) -> Node {
    Node::builder("n", "http://h/").build_with(id, stamp())
}

fn device(id: u128, node_id: u128) -> Device {
    Device::builder("d", &node(node_id), DeviceType::Generic).build_with(id, stamp())
}

fn source(id: u128, device_id: u128) -> Source {
    Source::builder("s", &device(device_id, 0), Format::Video).build_with(id, stamp())
}

fn flow(id: u128, source_id: u128) -> Flow {
    Flow::builder("f", &source(source_id, 0)).build_with(id, stamp())
}

fn sender(id: u128, device_id: u128, flow_id: u128) -> Sender {
    Sender::builder("x", &device(device_id, 0), &flow(flow_id, 0), Transport::Rtp)
        .build_with(id, stamp())
}

fn receiver(id: u128, device_id: u128) -> Receiver {
    Receiver::builder("r", &device(device_id, 0), Format::Video, Transport::Rtp)
        .build_with(id, stamp())
}

#[test]
fn a_new_model_is_empty() {
    let m = Model::new();
    assert!(m.list_nodes().is_empty());
    assert!(m.list_devices().is_empty());
    assert!(m.list_sources().is_empty());
    assert!(m.list_flows().is_empty());
    assert!(m.list_senders().is_empty());
    assert!(m.list_receivers().is_empty());
    assert!(matches!(m.get_node(1), Err(Error::NotFound)));
}

#[test]
fn inserted_resources_are_found_and_listed() {
    let mut m = Model::new();
    assert_eq!(m.insert_node(node(1)), Ok(()));
    assert_eq!(m.insert_device(device(2, 1)), Ok(()));
    assert_eq!(m.insert_source(source(3, 2)), Ok(()));
    assert_eq!(m.insert_flow(flow(4, 3)), Ok(()));
    assert_eq!(m.insert_sender(sender(5, 2, 4)), Ok(()));
    assert_eq!(m.insert_receiver(receiver(6, 2)), Ok(()));
    assert_eq!(m.get_node(1).unwrap().core.id, 1);
    assert_eq!(m.get_device(2).unwrap().node_id, 1);
    assert_eq!(m.get_source(3).unwrap().device_id, 2);
    assert_eq!(m.get_flow(4).unwrap().source_id, 3);
    assert_eq!(m.get_sender(5).unwrap().flow_id, 4);
    assert_eq!(m.get_sender(5).unwrap().device_id, 2);
    assert_eq!(m.get_receiver(6).unwrap().device_id, 2);
    assert!(m.list_nodes().iter().any(|n| n.core.id == 1));
    assert!(m.list_devices().iter().any(|d| d.core.id == 2));
    assert!(m.list_sources().iter().any(|s| s.core.id == 3));
    assert!(m.list_flows().iter().any(|f| f.core.id == 4));
    assert!(m.list_senders().iter().any(|x| x.core.id == 5));
    assert!(m.list_receivers().iter().any(|r| r.core.id == 6));
}

#[test]
fn a_lookup_of_an_unknown_identifier_is_not_found() {
    let mut m = Model::new();
    m.insert_node(node(1)).unwrap();
    m.insert_device(device(2, 1)).unwrap();
    assert!(matches!(m.get_node(2), Err(Error::NotFound)));
    assert!(matches!(m.get_device(1), Err(Error::NotFound)));
    assert!(matches!(m.get_source(2), Err(Error::NotFound)));
    assert!(matches!(m.get_flow(2), Err(Error::NotFound)));
    assert!(matches!(m.get_sender(2), Err(Error::NotFound)));
    assert!(matches!(m.get_receiver(2), Err(Error::NotFound)));
}

#[test]
fn a_device_needs_its_node() {
    let mut m = Model::new();
    assert_eq!(m.insert_device(device(2, 1)), Err(Error::MissingParent));
    assert!(m.list_devices().is_empty());
    m.insert_node(node(1)).unwrap();
    assert_eq!(m.insert_device(device(2, 9)), Err(Error::MissingParent));
    assert_eq!(m.insert_device(device(2, 1)), Ok(()));
    assert_eq!(m.list_devices().len(), 1);
}

#[test]
fn a_device_does_not_count_as_a_node() {
    let mut m = Model::new();
    m.insert_node(node(1)).unwrap();
    m.insert_device(device(2, 1)).unwrap();
    assert_eq!(m.insert_device(device(3, 2)), Err(Error::MissingParent));
}

#[test]
fn a_source_and_a_receiver_need_their_device() {
    let mut m = Model::new();
    m.insert_node(node(1)).unwrap();
    assert_eq!(m.insert_source(source(3, 2)), Err(Error::MissingParent));
    assert_eq!(m.insert_receiver(receiver(6, 2)), Err(Error::MissingParent));
    assert_eq!(m.insert_source(source(3, 1)), Err(Error::MissingParent));
    m.insert_device(device(2, 1)).unwrap();
    assert_eq!(m.insert_source(source(3, 2)), Ok(()));
    assert_eq!(m.insert_receiver(receiver(6, 2)), Ok(()));
    assert!(m.list_sources().len() == 1 && m.list_receivers().len() == 1);
}

#[test]
fn a_flow_needs_its_source() {
    let mut m = Model::new();
    m.insert_node(node(1)).unwrap();
    m.insert_device(device(2, 1)).unwrap();
    assert_eq!(m.insert_flow(flow(4, 3)), Err(Error::MissingParent));
    assert_eq!(m.insert_flow(flow(4, 2)), Err(Error::MissingParent));
    m.insert_source(source(3, 2)).unwrap();
    assert_eq!(m.insert_flow(flow(4, 3)), Ok(()));
}

#[test]
fn a_sender_needs_its_device_and_its_flow() {
    let mut m = Model::new();
    m.insert_node(node(1)).unwrap();
    m.insert_device(device(2, 1)).unwrap();
    assert_eq!(m.insert_sender(sender(5, 2, 4)), Err(Error::MissingParent));
    m.insert_source(source(3, 2)).unwrap();
    m.insert_flow(flow(4, 3)).unwrap();
    assert_eq!(m.insert_sender(sender(5, 9, 4)), Err(Error::MissingParent));
    assert_eq!(m.insert_sender(sender(5, 2, 9)), Err(Error::MissingParent));
    assert!(m.list_senders().is_empty());
    assert_eq!(m.insert_sender(sender(5, 2, 4)), Ok(()));
    assert_eq!(m.list_senders().len(), 1);
}

#[test]
fn lists_keep_the_order_of_insertion_and_a_second_insert_replaces() {
    let mut m = Model::new();
    m.insert_node(node(1)).unwrap();
    for id in [30, 10, 20] {
        m.insert_device(device(id, 1)).unwrap();
    }
    let ids: Vec<u128> = m.list_devices().iter().map(|d| d.core.id).collect();
    assert_eq!(ids, vec![30, 10, 20]);
    let mut again = device(10, 1);
    again.core.label = String::from("second");
    m.insert_device(again).unwrap();
    let ids: Vec<u128> = m.list_devices().iter().map(|d| d.core.id).collect();
    assert_eq!(ids, vec![30, 10, 20]);
    assert_eq!(m.get_device(10).unwrap().core.label, "second");
    m.insert_node(node(1)).unwrap();
    assert_eq!(m.list_nodes().len(), 1);
}

#[test]
fn a_model_from_a_bundle_holds_its_resources() {
    let mut b = ResourceBundle::new();
    b.insert_node(node(1));
    b.insert_device(device(2, 1));
    b.insert_device(device(7, 1));
    let mut second = device(2, 1);
    second.core.label = String::from("later");
    b.insert_device(second);
    b.insert_source(source(3, 2));
    b.insert_flow(flow(4, 3));
    b.insert_sender(sender(5, 2, 4));
    b.insert_receiver(receiver(6, 99));
    let m = Model::from_resources(b);
    assert_eq!(m.list_nodes().len(), 1);
    let ids: Vec<u128> = m.list_devices().iter().map(|d| d.core.id).collect();
    assert_eq!(ids, vec![2, 7]);
    assert_eq!(m.get_device(2).unwrap().core.label, "later");
    assert_eq!(m.get_source(3).unwrap().core.id, 3);
    assert_eq!(m.get_flow(4).unwrap().core.id, 4);
    assert_eq!(m.get_sender(5).unwrap().core.id, 5);
    assert_eq!(m.get_receiver(6).unwrap().device_id, 99);
}

#[test]
fn a_model_from_an_empty_bundle_is_empty() {
    let m = Model::from_resources(ResourceBundle::new());
    assert!(m.nodes.is_empty() && m.devices.is_empty() && m.sources.is_empty());
    assert!(m.flows.is_empty() && m.senders.is_empty() && m.receivers.is_empty());
}
