use nmos_node::model::Model;
use nmos_node::resource::{
    Device, DeviceJson, DeviceType, Flow, Format, Node, NodeJson, Receiver, Sender, Source,
    Transport,
};
use nmos_node::service::node_api::{
    get_device, get_devices, get_flow, get_flows, get_receiver, get_receivers, get_self,
    get_sender, get_senders, get_source, get_sources, missing, parse_api_version,
};
use nmos_node::service::response::{method_not_allowed, not_found};
use nmos_node::service::{
    collection, path, respond, route, Body, Collection, Response, Route, ServiceError, Status,
};
use nmos_node::tai::TaiTime;
use nmos_node::version::APIVersion;

const N: u128 = 0x67e5504410b1426f9247bb680e5fe0c8;

fn stamp() -> TaiTime {
    TaiTime::from_unix(1_441_974_448, 90)
}

fn model() -> Model {
    let mut m = Model::new();
    let n = Node::builder("test", "http://127.0.0.1:3000/").build_with(N, stamp());
    let d1 = Device::builder("d1", &n, DeviceType::Generic).build_with(0x21, stamp());
    let d2 = Device::builder("d2", &n, DeviceType::Pipeline).build_with(0x22, stamp());
    let s = Source::builder("s", &d1, Format::Video).build_with(0x31, stamp());
    let f = Flow::builder("f", &s).build_with(0x41, stamp());
    let x = Sender::builder("x", &d1, &f, Transport::Rtp).build_with(0x51, stamp());
    let r = Receiver::builder("r", &d2, Format::Video, Transport::Rtp).build_with(0x61, stamp());
    m.insert_node(n).unwrap();
    m.insert_device(d1).unwrap();
    m.insert_device(d2).unwrap();
    m.insert_source(s).unwrap();
    m.insert_flow(f).unwrap();
    m.insert_sender(x).unwrap();
    m.insert_receiver(r).unwrap();
    m
}

fn get(uri: &str) -> Response {
    respond("GET", uri, &model())
}

fn expect_error(response: &Response, status: Status, code: i64, error: &str, debug: Option<&str>) {
    assert_eq!(response.status, status);
    assert_eq!(response.status.code() as i64, code);
    match &response.body {
        Body::Error(report) => {
            assert_eq!(report.code, code);
            assert_eq!(report.error, error);
            assert_eq!(report.debug.as_deref(), debug);
        }
        other => panic!("{:?}", other),
    }
}

#[test]
fn numbers_of_the_statuses() {
    assert_eq!(Status::Success.code(), 200);
    assert_eq!(Status::BadRequest.code(), 400);
    assert_eq!(Status::NotFound.code(), 404);
    assert_eq!(Status::MethodNotAllowed.code(), 405);
}

#[test]
fn the_report_of_an_error() {
    let r = ServiceError::new(Status::BadRequest, Some(String::from("why"))).into_response();
    expect_error(&r, Status::BadRequest, 400, "400 Bad Request", Some("why"));
    assert_eq!(r.body_text(), "{\"code\":400,\"error\":\"400 Bad Request\",\"debug\":\"why\"}");
    let r = ServiceError::new(Status::Success, None).into_response();
    expect_error(&r, Status::Success, 200, "200 OK", None);
    assert_eq!(r.body_text(), "{\"code\":200,\"error\":\"200 OK\",\"debug\":null}");
}

#[test]
fn not_found_and_method_not_allowed() {
    let r = not_found();
    expect_error(&r, Status::NotFound, 404, "404 Not Found", None);
    assert_eq!(r.body_text(), "{\"code\":404,\"error\":\"404 Not Found\",\"debug\":null}");
    let r = method_not_allowed();
    expect_error(&r, Status::MethodNotAllowed, 405, "405 Method Not Allowed", None);
    assert_eq!(
        r.body_text(),
        "{\"code\":405,\"error\":\"405 Method Not Allowed\",\"debug\":null}"
    );
}

#[test]
fn the_api_version_of_a_request() {
    assert_eq!(parse_api_version("v1.0").unwrap(), APIVersion { major: 1, minor: 0 });
    let e = parse_api_version("v9.9").unwrap_err();
    assert_eq!(e.status, Status::BadRequest);
    assert_eq!(e.debug.as_deref(), Some("Unsupported API: v9.9"));
    let e = parse_api_version("v1.1").unwrap_err();
    assert_eq!(e.debug.as_deref(), Some("Unsupported API: v1.1"));
    let e = parse_api_version("v01.0").unwrap();
    assert_eq!(e, APIVersion { major: 1, minor: 0 });
    for bad in ["", "1.0", "v1", "v1.0.0", "latest", "v256.0"] {
        let e = parse_api_version(bad).unwrap_err();
        assert_eq!(e.status, Status::BadRequest);
        assert_eq!(e.debug.as_deref(), Some("API version badly formed"));
    }
}

#[test]
fn the_listings_above_the_resources() {
    let cases: [(&str, &str); 4] = [
        ("/", "[\"x-manifest/\",\"x-nmos/\"]"),
        ("/x-nmos/", "[\"node/\"]"),
        ("/x-nmos/node/", "[\"v1.0/\"]"),
        (
            "/x-nmos/node/v1.0/",
            "[\"devices/\",\"flows/\",\"receivers/\",\"self/\",\"senders/\",\"sources/\"]",
        ),
    ];
    for (uri, body) in cases {
        let r = get(uri);
        assert_eq!(r.status, Status::Success, "{}", uri);
        assert!(matches!(r.body, Body::Paths(_)));
        assert_eq!(r.body_text(), body, "{}", uri);
    }
}

#[test]
fn the_self_endpoint() {
    let r = get("/x-nmos/node/v1.0/self");
    assert_eq!(r.status, Status::Success);
    match &r.body {
        Body::Node(NodeJson::V1_0(json)) => {
            assert_eq!(json.label, "test");
            assert_eq!(json.href, "http://127.0.0.1:3000/");
            assert!(json.services.is_empty());
            let (secs, nanos) = json.version.split_once(':').unwrap();
            assert!(!secs.is_empty() && secs.chars().all(|c| c.is_ascii_digit()));
            assert!(!nanos.is_empty() && nanos.chars().all(|c| c.is_ascii_digit()));
        }
        other => panic!("{:?}", other),
    }
    let text = r.body_text();
    assert!(text.contains("\"label\":\"test\""));
    assert!(text.contains("\"href\":\"http://127.0.0.1:3000/\""));
    assert!(text.contains("\"caps\":{}"));
    assert!(text.contains("\"services\":[]"));
    assert!(text.contains("\"version\":\"1441974485:90\""));
}

#[test]
fn an_unknown_device() {
    let r = get("/x-nmos/node/v1.0/devices/00000000-0000-0000-0000-000000000000");
    expect_error(
        &r,
        Status::NotFound,
        404,
        "404 Not Found",
        Some("Device 00000000-0000-0000-0000-000000000000 does not exist"),
    );
    assert_eq!(
        r.body_text(),
        "{\"code\":404,\"error\":\"404 Not Found\",\
         \"debug\":\"Device 00000000-0000-0000-0000-000000000000 does not exist\"}"
    );
}

#[test]
fn an_unsupported_api_version() {
    let r = get("/x-nmos/node/v9.9/self");
    expect_error(&r, Status::BadRequest, 400, "400 Bad Request", Some("Unsupported API: v9.9"));
    let r = get("/x-nmos/node/v9.9/devices/");
    expect_error(&r, Status::BadRequest, 400, "400 Bad Request", Some("Unsupported API: v9.9"));
    let r = get("/x-nmos/node/v9.9/flows/00000000-0000-0000-0000-000000000041");
    expect_error(&r, Status::BadRequest, 400, "400 Bad Request", Some("Unsupported API: v9.9"));
}

#[test]
fn a_malformed_api_version() {
    let r = get("/x-nmos/node/one/self");
    expect_error(&r, Status::BadRequest, 400, "400 Bad Request", Some("API version badly formed"));
    let r = get("/x-nmos/node/v1/senders/");
    expect_error(&r, Status::BadRequest, 400, "400 Bad Request", Some("API version badly formed"));
}

#[test]
fn a_malformed_identifier() {
    let r = get("/x-nmos/node/v1.0/devices/not-a-uuid");
    expect_error(&r, Status::BadRequest, 400, "400 Bad Request", None);
    let r = get("/x-nmos/node/v9.9/devices/not-a-uuid");
    expect_error(&r, Status::BadRequest, 400, "400 Bad Request", None);
}

#[test]
fn lists_of_resources() {
    let r = get("/x-nmos/node/v1.0/devices/");
    assert_eq!(r.status, Status::Success);
    match &r.body {
        Body::Devices(list) => {
            assert_eq!(list.len(), 2);
            let DeviceJson::V1_0(first) = &list[0];
            let DeviceJson::V1_0(second) = &list[1];
            assert_eq!(first.label, "d1");
            assert_eq!(second.label, "d2");
            assert_eq!(second.type_, "urn:x-nmos:device:pipeline");
        }
        other => panic!("{:?}", other),
    }
    assert!(r.body_text().starts_with("[{\"id\":\"00000000-0000-0000-0000-000000000021\","));
    assert!(matches!(get("/x-nmos/node/v1.0/receivers/").body, Body::Receivers(l) if l.len() == 1));
    assert!(matches!(get("/x-nmos/node/v1.0/senders/").body, Body::Senders(l) if l.len() == 1));
    assert!(matches!(get("/x-nmos/node/v1.0/sources/").body, Body::Sources(l) if l.len() == 1));
    assert!(matches!(get("/x-nmos/node/v1.0/flows/").body, Body::Flows(l) if l.len() == 1));
    let empty = respond("GET", "/x-nmos/node/v1.0/flows/", &Model::new());
    assert_eq!(empty.status, Status::Success);
    assert_eq!(empty.body_text(), "[]");
}

#[test]
fn single_resources() {
    let r = get("/x-nmos/node/v1.0/devices/00000000-0000-0000-0000-000000000022");
    assert_eq!(r.status, Status::Success);
    match &r.body {
        Body::Device(DeviceJson::V1_0(json)) => assert_eq!(json.label, "d2"),
        other => panic!("{:?}", other),
    }
    assert!(matches!(
        get("/x-nmos/node/v1.0/receivers/00000000-0000-0000-0000-000000000061").body,
        Body::Receiver(_)
    ));
    assert!(matches!(
        get("/x-nmos/node/v1.0/senders/00000000-0000-0000-0000-000000000051").body,
        Body::Sender(_)
    ));
    assert!(matches!(
        get("/x-nmos/node/v1.0/sources/00000000-0000-0000-0000-000000000031").body,
        Body::Source(_)
    ));
    assert!(matches!(
        get("/x-nmos/node/v1.0/flows/00000000-0000-0000-0000-000000000041").body,
        Body::Flow(_)
    ));
}

#[test]
fn resources_of_another_kind_are_not_found() {
    let cases: [(&str, &str); 5] = [
        ("devices", "Device"),
        ("receivers", "Receiver"),
        ("senders", "Sender"),
        ("sources", "Source"),
        ("flows", "Flow"),
    ];
    for (segment, title) in cases {
        let uri = format!("/x-nmos/node/v1.0/{}/67e55044-10b1-426f-9247-bb680e5fe0c8", segment);
        let debug = format!("{} 67e55044-10b1-426f-9247-bb680e5fe0c8 does not exist", title);
        expect_error(&get(&uri), Status::NotFound, 404, "404 Not Found", Some(&debug));
    }
}

#[test]
fn other_paths_are_not_found() {
    for uri in [
        "",
        "/nothing",
        "/x-nmos",
        "/x-nmos/node",
        "/x-nmos/node/v1.0",
        "/x-nmos/node/v1.0/self/",
        "/x-nmos/node/v1.0/devices",
        "/x-nmos/node/v1.0/nodes/",
        "/x-nmos/node/v9.9/",
        "/x-nmos/node//self",
        "/x-nmos/query/v1.0/self",
        "/x-nmos/node/v1.0/devices/a/b",
        "//",
    ] {
        let debug = format!("No such path: {}", uri);
        expect_error(&get(uri), Status::NotFound, 404, "404 Not Found", Some(&debug));
        expect_error(
            &respond("POST", uri, &model()),
            Status::NotFound,
            404,
            "404 Not Found",
            Some(&debug),
        );
    }
}

#[test]
fn other_methods_are_not_allowed() {
    for method in ["POST", "PUT", "DELETE", "get", ""] {
        for uri in ["/", "/x-nmos/node/v1.0/self", "/x-nmos/node/v1.0/devices/", "/x-nmos/node/v9.9/self"]
        {
            let r = respond(method, uri, &model());
            expect_error(&r, Status::MethodNotAllowed, 405, "405 Method Not Allowed", None);
        }
    }
}

#[test]
fn a_query_is_no_part_of_the_path() {
    let r = get("/x-nmos/node/v1.0/self?verbose=1");
    assert_eq!(r.status, Status::Success);
    let r = get("/x-nmos/?a/b");
    assert_eq!(r.status, Status::Success);
    let r = get("/nothing?x=1");
    expect_error(&r, Status::NotFound, 404, "404 Not Found", Some("No such path: /nothing?x=1"));
    assert_eq!(path("/a/b?c=d?e"), "/a/b");
    assert_eq!(path("/a/b"), "/a/b");
    assert_eq!(path("?"), "");
    assert_eq!(path(""), "");
}

#[test]
fn what_paths_stand_for() {
    assert!(matches!(route("/"), Route::Root));
    assert!(matches!(route("/x-nmos/"), Route::XNmos));
    assert!(matches!(route("/x-nmos/node/"), Route::NodeApi));
    assert!(matches!(route("/x-nmos/node/v1.0/"), Route::Version));
    assert!(matches!(route("/x-nmos/node/v1.0/self"), Route::SelfNode { api: "v1.0" }));
    assert!(matches!(route("/x-nmos/node/zz/self"), Route::SelfNode { api: "zz" }));
    assert!(matches!(
        route("/x-nmos/node/v1.0/flows/"),
        Route::List { api: "v1.0", collection: Collection::Flows }
    ));
    assert!(matches!(
        route("/x-nmos/node/v1.0/senders/abc"),
        Route::Item { api: "v1.0", collection: Collection::Senders, id: "abc" }
    ));
    assert!(matches!(route("/x-nmos/node/v1.0/self/x"), Route::Unknown));
    assert!(matches!(route("x-nmos/node/v1.0/self"), Route::Unknown));
    assert!(matches!(route("/x-nmos/node/v1.1/"), Route::Unknown));
    let v: Vec<char> = "devices receivers senders sources flows self".chars().collect();
    assert_eq!(collection(&v, 0, 7), Some(Collection::Devices));
    assert_eq!(collection(&v, 8, 17), Some(Collection::Receivers));
    assert_eq!(collection(&v, 18, 25), Some(Collection::Senders));
    assert_eq!(collection(&v, 26, 33), Some(Collection::Sources));
    assert_eq!(collection(&v, 34, 39), Some(Collection::Flows));
    assert_eq!(collection(&v, 40, 44), None);
    assert_eq!(collection(&v, 0, 6), None);
}

#[test]
fn identifiers_in_the_forms_that_a_uuid_may_have() {
    let r = get("/x-nmos/node/v1.0/devices/00000000000000000000000000000022");
    assert_eq!(r.status, Status::Success);
    let r = get("/x-nmos/node/v1.0/devices/00000000-0000-0000-0000-00000000002G");
    expect_error(&r, Status::BadRequest, 400, "400 Bad Request", None);
}

#[test]
fn the_handlers() {
    let m = model();
    assert!(get_self("v1.0", &m).is_ok());
    assert_eq!(get_devices("v1.0", &m).unwrap().len(), 2);
    assert_eq!(get_receivers("v1.0", &m).unwrap().len(), 1);
    assert_eq!(get_senders("v1.0", &m).unwrap().len(), 1);
    assert_eq!(get_sources("v1.0", &m).unwrap().len(), 1);
    assert_eq!(get_flows("v1.0", &m).unwrap().len(), 1);
    assert!(get_device("v1.0", 0x21, &m).is_ok());
    assert!(get_receiver("v1.0", 0x61, &m).is_ok());
    assert!(get_sender("v1.0", 0x51, &m).is_ok());
    assert!(get_source("v1.0", 0x31, &m).is_ok());
    assert!(get_flow("v1.0", 0x41, &m).is_ok());
    let e = get_flow("v1.0", 0x42, &m).unwrap_err();
    assert_eq!(e.status, Status::NotFound);
    assert_eq!(
        e.debug.as_deref(),
        Some("Flow 00000000-0000-0000-0000-000000000042 does not exist")
    );
    let e = get_flow("v2.0", 0x41, &m).unwrap_err();
    assert_eq!(e.status, Status::BadRequest);
    assert_eq!(e.debug.as_deref(), Some("Unsupported API: v2.0"));
    assert!(get_devices("x", &m).is_err());
    assert!(get_receivers("x", &m).is_err());
    assert!(get_senders("x", &m).is_err());
    assert!(get_sources("x", &m).is_err());
    assert!(get_flows("x", &m).is_err());
    let e = missing("Thing", 1);
    assert_eq!(e.debug.as_deref(), Some("Thing 00000000-0000-0000-0000-000000000001 does not exist"));
}

#[test]
fn a_model_without_node_has_no_self() {
    let e = get_self("v1.0", &Model::new()).unwrap_err();
    assert_eq!(e.status, Status::NotFound);
    assert_eq!(e.debug, None);
    let e = get_self("v1.5", &Model::new()).unwrap_err();
    assert_eq!(e.status, Status::BadRequest);
    let r = respond("GET", "/x-nmos/node/v1.0/self", &Model::new());
    expect_error(&r, Status::NotFound, 404, "404 Not Found", None);
}
