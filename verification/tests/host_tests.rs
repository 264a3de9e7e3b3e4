use std::sync::mpsc;

use webhook2amqp::admission::RoutingDecision;
use webhook2amqp::body::AdmissionError;
use webhook2amqp::host::{package_paths, ScriptHost, ScriptLoadError};
use webhook2amqp::record::LuaRequest;

fn host_with(chunk: &str) -> ScriptHost {
    let (tx, _rx) = mpsc::channel();
    ScriptHost::setup_with_module("./lua", &Vec::new(), tx, chunk).unwrap()
}

fn request(
    method: &str,
    headers: Vec<(&str, &str)>,
    body: Vec<u8>,
) -> Result<LuaRequest, AdmissionError> {
    LuaRequest::create(
        String::from("/webhook"),
        String::from(method),
        String::from("10.0.0.1:4321"),
        headers
            .into_iter()
            .map(|(k, v)| (String::from(k), String::from(v)))
            .collect(),
        body,
    )
}

#[test]
fn builds_module_search_paths_in_order() {
    assert_eq!(
        package_paths("/srv/lua"),
        "/srv/lua/?.ljbc;/srv/lua/?.lua;/srv/lua/?/init.ljbc;/srv/lua/?/init.lua"
    );
}

#[test]
fn manifest_holds_exported_names_in_order() {
    let host = host_with(
        "return { queue_names = {\"alpha\", \"beta\", \"gamma\"}, handler = function(r) return nil end }",
    );
    let names: Vec<String> = host.queue_names().clone();
    assert_eq!(names, vec!["alpha", "beta", "gamma"]);
}

#[test]
fn refuses_module_that_does_not_load() {
    let (tx, _rx) = mpsc::channel();
    let r = ScriptHost::setup_with_module("./lua", &Vec::new(), tx, "this is not lua((");
    assert!(matches!(r, Err(ScriptLoadError::Module(_))));
}

#[test]
fn refuses_module_without_queue_names() {
    let (tx, _rx) = mpsc::channel();
    let r = ScriptHost::setup_with_module(
        "./lua",
        &Vec::new(),
        tx,
        "return { handler = function(r) return nil end }",
    );
    assert!(matches!(r, Err(ScriptLoadError::QueueNames(_))));
}

#[test]
fn refuses_module_without_handler() {
    let (tx, _rx) = mpsc::channel();
    let r = ScriptHost::setup_with_module(
        "./lua",
        &Vec::new(),
        tx,
        "return { queue_names = {\"q\"} }",
    );
    assert!(matches!(r, Err(ScriptLoadError::Handler(_))));
}

#[test]
fn returned_queue_name_accepts() {
    let mut host = host_with(
        "return { queue_names = {\"jobs\"}, handler = function(r) return \"jobs\" end }",
    );
    let rec = request("POST", vec![], b"hi".to_vec()).unwrap();
    assert_eq!(host.decide(&rec), RoutingDecision::Accept(String::from("jobs")));
}

#[test]
fn returned_nil_rejects() {
    let mut host = host_with(
        "return { queue_names = {}, handler = function(r) return nil end }",
    );
    let rec = request("POST", vec![], Vec::new()).unwrap();
    assert_eq!(host.decide(&rec), RoutingDecision::Reject);
}

#[test]
fn handler_fault_is_an_error() {
    let mut host = host_with(
        "return { queue_names = {}, handler = function(r) error(\"routing exploded\") end }",
    );
    let rec = request("POST", vec![], Vec::new()).unwrap();
    match host.decide(&rec) {
        RoutingDecision::Error(detail) => assert!(detail.contains("routing exploded")),
        other => panic!("expected an error outcome, got {:?}", other),
    }
}

#[test]
fn handler_observes_the_request_id() {
    let mut host = host_with(
        "return { queue_names = {}, handler = function(r) return r.request_id end }",
    );
    let rec = request("POST", vec![], Vec::new()).unwrap();
    assert_eq!(host.decide(&rec), RoutingDecision::Accept(rec.request_id.clone()));
}

#[test]
fn handler_sees_normalized_fields() {
    let mut host = host_with(
        "return { queue_names = {}, handler = function(r) return r.method .. \" \" .. r.url .. \" \" .. r.origin end }",
    );
    let rec = request("post", vec![], Vec::new()).unwrap();
    assert_eq!(
        host.decide(&rec),
        RoutingDecision::Accept(String::from("POST /webhook 10.0.0.1:4321"))
    );
}

#[test]
fn handler_sees_lower_cased_headers() {
    let mut host = host_with(
        "return { queue_names = {}, handler = function(r) return r.headers[\"x-route-to\"] end }",
    );
    let rec = request("POST", vec![("X-Route-To", "orders")], Vec::new()).unwrap();
    assert_eq!(host.decide(&rec), RoutingDecision::Accept(String::from("orders")));
}

#[test]
fn handler_sees_mimetype_and_its_absence() {
    let chunk = "return { queue_names = {}, handler = function(r) if r.mimetype == nil then return \"absent\" end return r.mimetype end }";
    let mut host = host_with(chunk);
    let with_ct = request("POST", vec![("Content-Type", "application/json")], Vec::new()).unwrap();
    assert_eq!(host.decide(&with_ct), RoutingDecision::Accept(String::from("application/json")));
    let mut host2 = host_with(chunk);
    let get = request("GET", vec![], Vec::new()).unwrap();
    assert_eq!(host2.decide(&get), RoutingDecision::Accept(String::from("absent")));
}

#[test]
fn handler_reads_config_values() {
    let (tx, _rx) = mpsc::channel();
    let config = vec![(String::from("target"), String::from("billing"))];
    let mut host = ScriptHost::setup_with_module(
        "./lua",
        &config,
        tx,
        "return { queue_names = {}, handler = function(r) return CONFIG[\"target\"] end }",
    )
    .unwrap();
    let rec = request("POST", vec![], Vec::new()).unwrap();
    assert_eq!(host.decide(&rec), RoutingDecision::Accept(String::from("billing")));
}

#[test]
fn handler_reads_text_body() {
    let mut host = host_with(
        "return { queue_names = {}, handler = function(r) return r.body end }",
    );
    let rec = request("POST", vec![], b"to-the-queue".to_vec()).unwrap();
    assert_eq!(host.decide(&rec), RoutingDecision::Accept(String::from("to-the-queue")));
}

#[test]
fn non_text_body_faults_only_when_read() {
    let reader = "return { queue_names = {}, handler = function(r) local b = r.body return \"q\" end }";
    let ignorer = "return { queue_names = {}, handler = function(r) return \"q\" end }";
    let payload = vec![0xffu8, 0xfe, 0x00];

    let mut reading_host = host_with(reader);
    let rec = request("POST", vec![], payload.clone()).unwrap();
    assert!(matches!(reading_host.decide(&rec), RoutingDecision::Error(_)));

    let mut ignoring_host = host_with(ignorer);
    let rec2 = request("POST", vec![], payload).unwrap();
    assert_eq!(ignoring_host.decide(&rec2), RoutingDecision::Accept(String::from("q")));
}

#[test]
fn print_shim_renders_one_line_per_call() {
    let (tx, rx) = mpsc::channel();
    let mut host = ScriptHost::setup_with_module(
        "./lua",
        &Vec::new(),
        tx,
        "return { queue_names = {}, handler = function(r) print(1, \"a\", true, nil) print(0.5) return nil end }",
    )
    .unwrap();
    let rec = request("POST", vec![], Vec::new()).unwrap();
    assert_eq!(host.decide(&rec), RoutingDecision::Reject);
    assert_eq!(rx.try_recv().unwrap(), "1 a true nil");
    assert_eq!(rx.try_recv().unwrap(), "0.5");
    assert!(rx.try_recv().is_err());
}

#[test]
fn request_view_is_read_only() {
    let mut host = host_with(
        "return { queue_names = {}, handler = function(r) r.hijacked = true return \"q\" end }",
    );
    let rec = request("POST", vec![], Vec::new()).unwrap();
    match host.decide(&rec) {
        RoutingDecision::Error(detail) => assert!(detail.contains("read-only")),
        other => panic!("expected an error outcome, got {:?}", other),
    }
}

#[test]
fn refuses_non_table_queue_names() {
    let (tx, _rx) = mpsc::channel();
    let r = ScriptHost::setup_with_module(
        "./lua",
        &Vec::new(),
        tx,
        "return { queue_names = 5, handler = function(r) return nil end }",
    );
    assert!(matches!(r, Err(ScriptLoadError::QueueNames(_))));
}

#[test]
fn refuses_non_string_queue_name_entries() {
    let (tx, _rx) = mpsc::channel();
    let r = ScriptHost::setup_with_module(
        "./lua",
        &Vec::new(),
        tx,
        "return { queue_names = {true}, handler = function(r) return nil end }",
    );
    assert!(matches!(r, Err(ScriptLoadError::QueueNames(_))));
}
