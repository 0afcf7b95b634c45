use oneberry_devkit::cluster::{check_cluster, check_cluster_output, list_services, list_services_output, service_health, check_cluster_command, list_services_command};
use oneberry_devkit::command::{ExitInfo, RunOutcome};
use oneberry_devkit::json::{parse_json, JsonValue};
use oneberry_devkit::platform::{HostEnv, Platform};

fn ok_run() -> RunOutcome {
    RunOutcome::Exited(ExitInfo { success: true, code: Some(0), stdout: "{}".into(), stderr: String::new() })
}

fn failed_run(stderr: &str) -> RunOutcome {
    RunOutcome::Exited(ExitInfo { success: false, code: Some(1), stdout: String::new(), stderr: stderr.into() })
}

fn obj(members: Vec<(&str, JsonValue)>) -> JsonValue {
    JsonValue::Object(members.into_iter().map(|(k, v)| (k.to_string(), v)).collect())
}

fn deployment(name: Option<&str>, replicas: Option<u64>, ready: Option<u64>) -> JsonValue {
    let mut metadata = vec![];
    if let Some(n) = name {
        metadata.push(("name", JsonValue::String(n.into())));
    }
    let mut spec = vec![];
    if let Some(r) = replicas {
        spec.push(("replicas", JsonValue::Number(Some(r))));
    }
    let mut status = vec![];
    if let Some(r) = ready {
        status.push(("readyReplicas", JsonValue::Number(Some(r))));
    }
    obj(vec![("metadata", obj(metadata)), ("spec", obj(spec)), ("status", obj(status))])
}

#[test]
fn cluster_commands() {
    let h = HostEnv::new(Platform::Linux, None, None);
    let c = check_cluster_command(&h);
    assert_eq!(c.args, vec!["get", "nodes", "-o", "json"]);
    let l = list_services_command(&h);
    assert_eq!(l.args, vec!["get", "deployments", "-n", "oneberry-dev", "-o", "json"]);
}

#[test]
fn cluster_status_from_each_outcome() {
    let unused: Result<JsonValue, String> = Ok(JsonValue::Null);
    let st = check_cluster(&RunOutcome::Failed("not found".into()), &unused).unwrap();
    assert_eq!((st.status.as_str(), st.node_count), ("error", 0));
    assert_eq!(st.message.unwrap(), "kubectl 不可用: not found");

    let st = check_cluster(&failed_run("Unable to connect"), &unused).unwrap();
    assert_eq!(st.status, "disconnected");
    assert_eq!(st.message.unwrap(), "Unable to connect");

    let nodes = obj(vec![("items", JsonValue::Array(vec![JsonValue::Null, JsonValue::Null, JsonValue::Null]))]);
    let st = check_cluster(&ok_run(), &Ok(nodes)).unwrap();
    assert_eq!((st.status.as_str(), st.node_count), ("connected", 3));
    assert!(st.message.is_none());

    let st = check_cluster(&ok_run(), &Ok(obj(vec![]))).unwrap();
    assert_eq!(st.node_count, 0);

    assert_eq!(check_cluster(&ok_run(), &Err("expected value".into())).err().unwrap(), "expected value");
}

#[test]
fn service_health_states() {
    assert_eq!(service_health(2, 2), "running");
    assert_eq!(service_health(3, 2), "running");
    assert_eq!(service_health(0, 0), "running");
    assert_eq!(service_health(1, 2), "degraded");
    assert_eq!(service_health(0, 2), "stopped");
}

#[test]
fn services_from_deployments() {
    let items = obj(vec![(
        "items",
        JsonValue::Array(vec![
            deployment(Some("api"), Some(2), Some(2)),
            deployment(Some("web"), Some(3), Some(1)),
            deployment(None, None, None),
            deployment(Some("big"), Some(4294967297), None),
        ]),
    )]);
    let s = list_services(&ok_run(), &Ok(items)).unwrap();
    assert_eq!(s.len(), 4);
    assert_eq!((s[0].name.as_str(), s[0].ready, s[0].desired, s[0].status.as_str()), ("api", 2, 2, "running"));
    assert_eq!((s[1].name.as_str(), s[1].ready, s[1].desired, s[1].status.as_str()), ("web", 1, 3, "degraded"));
    assert_eq!((s[2].name.as_str(), s[2].ready, s[2].desired, s[2].status.as_str()), ("unknown", 0, 1, "stopped"));
    // 2^32 + 1 replicas truncate to 1, as `as u32` does.
    assert_eq!((s[3].desired, s[3].status.as_str()), (1, "stopped"));

    assert!(list_services(&ok_run(), &Ok(obj(vec![]))).unwrap().is_empty());
    assert_eq!(
        list_services(&RunOutcome::Failed("no kubectl".into()), &Ok(JsonValue::Null)).err().unwrap(),
        "kubectl 执行失败: no kubectl"
    );
    assert_eq!(list_services(&failed_run("forbidden"), &Ok(JsonValue::Null)).err().unwrap(), "获取服务列表失败: forbidden");
    assert_eq!(list_services(&ok_run(), &Err("bad".into())).err().unwrap(), "bad");
}

#[test]
fn kubectl_output_is_read_as_json() {
    let nodes = br#"{"items": [{"metadata": {"name": "n1"}}, {"metadata": {"name": "n2"}}]}"#;
    let st = check_cluster_output(&ok_run(), nodes).unwrap();
    assert_eq!(st.status, "connected");
    assert_eq!(st.node_count, 2);
    assert!(check_cluster_output(&ok_run(), b"oops").is_err());
    // A failed run's output is not read.
    let st = check_cluster_output(&failed_run("denied"), b"oops").unwrap();
    assert_eq!(st.status, "disconnected");

    let deps = br#"{"items": [{"metadata": {"name": "api"}, "spec": {"replicas": 2}, "status": {"readyReplicas": 1}}, {"spec": {}}]}"#;
    let s = list_services_output(&ok_run(), deps).unwrap();
    assert_eq!(s.len(), 2);
    assert_eq!((s[0].name.as_str(), s[0].ready, s[0].desired, s[0].status.as_str()), ("api", 1, 2, "degraded"));
    assert_eq!((s[1].name.as_str(), s[1].ready, s[1].desired, s[1].status.as_str()), ("unknown", 0, 1, "stopped"));
    assert_eq!(list_services_output(&ok_run(), b"").err().unwrap(), "EOF while parsing a value at line 1 column 0");
}

#[test]
fn json_documents_parse() {
    match parse_json(br#"{"a": [1, -2, 1.5, "x", true, null]}"#).unwrap() {
        JsonValue::Object(m) => {
            assert_eq!(m[0].0, "a");
            match &m[0].1 {
                JsonValue::Array(items) => {
                    assert!(matches!(items[0], JsonValue::Number(Some(1))));
                    assert!(matches!(items[1], JsonValue::Number(None)));
                    assert!(matches!(items[2], JsonValue::Number(None)));
                    assert!(matches!(&items[3], JsonValue::String(t) if t == "x"));
                    assert!(matches!(items[4], JsonValue::Bool(true)));
                    assert!(matches!(items[5], JsonValue::Null));
                }
                _ => panic!(),
            }
        }
        _ => panic!(),
    }
}
