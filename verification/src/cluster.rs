use vstd::prelude::*;

use crate::command::{command, CommandSpec, RunOutcome};
use crate::json::{
    array_of, as_array, as_str, as_u64, field, field2, json_of_bytes, lemma_path_one, parse_json,
    parsed_view, path_spec, str_of, u64_of, JsonValue,
};
use crate::platform::HostEnv;
use crate::utils::{find_bin, resolve_bin_spec, bin_candidates_spec};
use crate::text::{concat2, opt_view, owned};

verus! {

/// Whether the cluster answers.
pub struct ClusterStatus {
    /// `"connected"`, `"disconnected"` or `"error"`.
    pub status: String,
    pub node_count: u32,
    pub message: Option<String>,
}

/// A deployment of the development namespace.
pub struct K8sService {
    pub name: String,
    pub ready: u32,
    pub desired: u32,
    /// `"running"`, `"degraded"` or `"stopped"`.
    pub status: String,
}

/// The namespace whose deployments are listed.
pub open spec fn dev_namespace() -> Seq<char> {
    "oneberry-dev"@
}

/// The content of a cluster status, or the error.
pub open spec fn cluster_view(r: Result<ClusterStatus, String>) -> Result<
    (Seq<char>, u32, Option<Seq<char>>),
    Seq<char>,
> {
    match r {
        Ok(st) => Ok((st.status@, st.node_count, opt_view(st.message))),
        Err(e) => Err(e@),
    }
}

/// The status of the cluster from kubectl's run and the JSON reading of its output.
pub open spec fn cluster_spec(outcome: RunOutcome, parsed: Result<JsonValue, Seq<char>>) -> Result<
    (Seq<char>, u32, Option<Seq<char>>),
    Seq<char>,
> {
    match outcome {
        RunOutcome::Failed(e) => Ok(("error"@, 0u32, Some("kubectl 不可用: "@ + e@))),
        RunOutcome::Exited(x) => if !x.success {
            Ok(("disconnected"@, 0u32, Some(x.stderr@)))
        } else {
            match parsed {
                Err(e) => Err(e),
                Ok(json) => Ok((
                    "connected"@,
                    match array_of(path_spec(json, seq!["items"@])) {
                        Some(items) => items.len() as u32,
                        None => 0u32,
                    },
                    None,
                )),
            }
        },
    }
}

/// The JSON reading of a run's standard output, where the run succeeded (the output is not
/// read otherwise).
pub open spec fn output_json(outcome: RunOutcome, stdout: Seq<u8>) -> Result<JsonValue, Seq<char>> {
    if outcome matches RunOutcome::Exited(x) && x.success {
        json_of_bytes(stdout)
    } else {
        Err(Seq::empty())
    }
}

/// Reads a run's standard output (its raw bytes) as JSON where the run succeeded.
pub fn read_output_json(outcome: &RunOutcome, stdout: &[u8]) -> (r: Result<JsonValue, String>)
    ensures
        parsed_view(r) == output_json(*outcome, stdout@),
{
    match outcome {
        RunOutcome::Exited(x) => if x.success {
            parse_json(stdout)
        } else {
            Err(String::new())
        },
        RunOutcome::Failed(_) => Err(String::new()),
    }
}

/// The status of the cluster from the run of `check_cluster_command` and the raw bytes of
/// its standard output, read as JSON where the run succeeded.
pub fn check_cluster_output(outcome: &RunOutcome, stdout: &[u8]) -> (r: Result<ClusterStatus, String>)
    ensures
        cluster_view(r) == cluster_spec(*outcome, output_json(*outcome, stdout@)),
{
    let parsed = read_output_json(outcome, stdout);
    check_cluster(outcome, &parsed)
}

/// The services from the run of `list_services_command` and the raw bytes of its standard
/// output, read as JSON where the run succeeded.
pub fn list_services_output(outcome: &RunOutcome, stdout: &[u8]) -> (r: Result<Vec<K8sService>, String>)
    ensures
        services_answer(*outcome, output_json(*outcome, stdout@), r),
{
    let parsed = read_output_json(outcome, stdout);
    list_services(outcome, &parsed)
}

/// The command that lists the cluster's nodes: `kubectl get nodes -o json`.
pub fn check_cluster_command(host: &HostEnv) -> (c: CommandSpec)
    ensures
        exists|present: Seq<bool>|
            c@.program == resolve_bin_spec(
                "kubectl"@,
                bin_candidates_spec("kubectl"@, *host),
                present,
            ),
        c@.args == seq!["get"@, "nodes"@, "-o"@, "json"@],
        !c@.hide_window,
{
    let bin = find_bin("kubectl", host);
    command(bin.as_str(), &["get", "nodes", "-o", "json"], false)
}

/// The status of the cluster from the run of `check_cluster_command`, where `parsed` is the
/// JSON reading of its standard output (consulted only where the run succeeded): `"error"`
/// where kubectl could not start, `"disconnected"` with kubectl's error output where it
/// failed, `"connected"` with the number of listed nodes where it succeeded; an error only
/// where that output is not JSON.
pub fn check_cluster(outcome: &RunOutcome, parsed: &Result<JsonValue, String>) -> (r: Result<
    ClusterStatus,
    String,
>)
    ensures
        cluster_view(r) == cluster_spec(*outcome, parsed_view(*parsed)),
{
    match outcome {
        RunOutcome::Failed(e) => Ok(
            ClusterStatus {
                status: owned("error"),
                node_count: 0,
                message: Some(concat2("kubectl 不可用: ", e.as_str())),
            },
        ),
        RunOutcome::Exited(x) => {
            if !x.success {
                Ok(
                    ClusterStatus {
                        status: owned("disconnected"),
                        node_count: 0,
                        message: Some(x.stderr.clone()),
                    },
                )
            } else {
                match parsed {
                    Err(e) => Err(e.clone()),
                    Ok(json) => {
                        let items = field(json, "items");
                        proof {
                            lemma_path_one(*json, "items"@);
                        }
                        let node_count: u32 = match as_array(items) {
                            Some(arr) => arr.len() as u32,
                            None => 0,
                        };
                        Ok(ClusterStatus { status: owned("connected"), node_count, message: None })
                    },
                }
            }
        },
    }
}

/// How a deployment is doing, from its ready and desired replica counts.
pub open spec fn health_spec(ready: u32, desired: u32) -> Seq<char> {
    if ready >= desired {
        "running"@
    } else if ready > 0 {
        "degraded"@
    } else {
        "stopped"@
    }
}

/// A deployment is in exactly one of the three states: running where all desired replicas
/// are ready, degraded where some but not all are, stopped where none is (and some are
/// wanted).
pub proof fn law_health_partition(ready: u32, desired: u32)
    ensures
        (health_spec(ready, desired) == "running"@) == (ready >= desired),
        (health_spec(ready, desired) == "degraded"@) == (0 < ready < desired),
        (health_spec(ready, desired) == "stopped"@) == (ready == 0 && 0 < desired),
{
    reveal_strlit("running");
    reveal_strlit("degraded");
    reveal_strlit("stopped");
    assert("running"@.len() != "degraded"@.len());
    assert("running"@[0] != "stopped"@[0]);
    assert("degraded"@.len() != "stopped"@.len());
}

/// `"running"` where every desired replica is ready, `"degraded"` where some but not all
/// are, `"stopped"` where none is.
pub fn service_health(ready: u32, desired: u32) -> (r: &'static str)
    ensures
        r@ == health_spec(ready, desired),
{
    if ready >= desired {
        "running"
    } else if ready > 0 {
        "degraded"
    } else {
        "stopped"
    }
}

/// The service that a deployment item describes: its name (`"unknown"` where it has none),
/// its desired replicas (1 where not given) and ready replicas (0 where not given), each
/// truncated to 32 bits, and its health.
pub open spec fn service_matches(s: K8sService, item: JsonValue) -> bool {
    let name = str_of(path_spec(item, seq!["metadata"@, "name"@]));
    let desired = u64_of(path_spec(item, seq!["spec"@, "replicas"@]));
    let ready = u64_of(path_spec(item, seq!["status"@, "readyReplicas"@]));
    &&& s.name@ == match name {
        Some(n) => n,
        None => "unknown"@,
    }
    &&& s.desired == match desired {
        Some(d) => d as u32,
        None => 1u32,
    }
    &&& s.ready == match ready {
        Some(d) => d as u32,
        None => 0u32,
    }
    &&& s.status@ == health_spec(s.ready, s.desired)
}

/// The service one deployment item describes.
pub fn service_from_item(item: &JsonValue) -> (s: K8sService)
    ensures
        service_matches(s, *item),
{
    let name = match as_str(field2(item, "metadata", "name")) {
        Some(n) => n.clone(),
        None => owned("unknown"),
    };
    let desired: u32 = match as_u64(field2(item, "spec", "replicas")) {
        Some(d) => d as u32,
        None => 1,
    };
    let ready: u32 = match as_u64(field2(item, "status", "readyReplicas")) {
        Some(d) => d as u32,
        None => 0,
    };
    let status = owned(service_health(ready, desired));
    K8sService { name, ready, desired, status }
}

/// The command that lists the deployments of the development namespace:
/// `kubectl get deployments -n oneberry-dev -o json`.
pub fn list_services_command(host: &HostEnv) -> (c: CommandSpec)
    ensures
        exists|present: Seq<bool>|
            c@.program == resolve_bin_spec(
                "kubectl"@,
                bin_candidates_spec("kubectl"@, *host),
                present,
            ),
        c@.args == seq!["get"@, "deployments"@, "-n"@, dev_namespace(), "-o"@, "json"@],
        !c@.hide_window,
{
    let bin = find_bin("kubectl", host);
    command(bin.as_str(), &["get", "deployments", "-n", "oneberry-dev", "-o", "json"], false)
}

/// `r` is the answer to a request for the services, from kubectl's run and the JSON reading
/// of its output.
pub open spec fn services_answer(
    outcome: RunOutcome,
    parsed: Result<JsonValue, Seq<char>>,
    r: Result<Vec<K8sService>, String>,
) -> bool {
    match outcome {
        RunOutcome::Failed(e) => (r matches Err(m) && m@ == "kubectl 执行失败: "@ + e@),
        RunOutcome::Exited(x) => if !x.success {
            (r matches Err(m) && m@ == "获取服务列表失败: "@ + x.stderr@)
        } else {
            match parsed {
                Err(e) => (r matches Err(m) && m@ == e),
                Ok(json) => (r matches Ok(services) && {
                    let items = match array_of(path_spec(json, seq!["items"@])) {
                        Some(items) => items,
                        None => Seq::<JsonValue>::empty(),
                    };
                    &&& services@.len() == items.len()
                    &&& forall|i: int|
                        0 <= i < items.len() ==> service_matches(#[trigger] services@[i], items[i])
                }),
            }
        },
    }
}

/// The services from the run of `list_services_command`, where `parsed` is the JSON reading
/// of its standard output (consulted only where the run succeeded): one per item of
/// `items`, in order (none where there is no such array); an error where kubectl could not
/// start, failed, or printed something that is not JSON.
pub fn list_services(outcome: &RunOutcome, parsed: &Result<JsonValue, String>) -> (r: Result<
    Vec<K8sService>,
    String,
>)
    ensures
        services_answer(*outcome, parsed_view(*parsed), r),
{
    match outcome {
        RunOutcome::Failed(e) => Err(concat2("kubectl 执行失败: ", e.as_str())),
        RunOutcome::Exited(x) => {
            if !x.success {
                Err(concat2("获取服务列表失败: ", x.stderr.as_str()))
            } else {
                match parsed {
                    Err(e) => Err(e.clone()),
                    Ok(json) => {
                        proof {
                            lemma_path_one(*json, "items"@);
                        }
                        let mut services: Vec<K8sService> = Vec::new();
                        match as_array(field(json, "items")) {
                            Some(items) => {
                                let mut i: usize = 0;
                                while i < items.len()
                                    invariant
                                        i <= items@.len(),
                                        services@.len() == i,
                                        forall|k: int|
                                            0 <= k < i ==> service_matches(
                                                #[trigger] services@[k],
                                                items@[k],
                                            ),
                                    decreases items@.len() - i,
                                {
                                    services.push(service_from_item(&items[i]));
                                    i = i + 1;
                                }
                            },
                            None => {},
                        }
                        Ok(services)
                    },
                }
            }
        },
    }
}

} // verus!
