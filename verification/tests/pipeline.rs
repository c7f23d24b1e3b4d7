use minikubelet::provider::cri::{Container, PodSandbox, PodSandboxMetadata};
use minikubelet::provider::pod::{
    create_container, create_sandbox, fetch_status_info, run_pod, start_container, update_status,
    PodStatus, PollCall, PollReply, Reconciler, RuntimeCall, RuntimeReply, Stage,
    STATUS_POLL_SECONDS,
};
use minikubelet::provider::{image_reference, untag, version, Pod, PodContainer, PodSpec};

fn web_pod() -> Pod {
    Pod {
        name: Some("web".to_string()),
        namespace: Some("default".to_string()),
        spec: Some(PodSpec {
            containers: vec![PodContainer {
                name: "nginx".to_string(),
                image: Some("nginx".to_string()),
            }],
        }),
    }
}

fn sandbox(id: &str, name: &str, namespace: &str) -> PodSandbox {
    PodSandbox {
        id: id.to_string(),
        metadata: Some(PodSandboxMetadata {
            name: name.to_string(),
            uid: "123".to_string(),
            namespace: namespace.to_string(),
            attempt: 0,
        }),
    }
}

fn container(id: &str, sandbox_id: &str, name: &str, state: i32) -> Container {
    Container {
        id: id.to_string(),
        pod_sandbox_id: sandbox_id.to_string(),
        name: name.to_string(),
        image: format!("docker.io/library/{}:latest", name),
        state,
    }
}

#[test]
fn image_is_rewritten_to_fixed_registry_and_latest() {
    assert_eq!(image_reference("nginx"), "docker.io/library/nginx:latest");
    assert_eq!(image_reference("redis:6"), "docker.io/library/redis:latest");
    assert_eq!(image_reference("nginx:1.19"), "docker.io/library/nginx:latest");
    assert_eq!(image_reference("nginx:latest"), "docker.io/library/nginx:latest");
    assert_eq!(image_reference("nginx:"), "docker.io/library/nginx:latest");
    assert_eq!(image_reference(""), "docker.io/library/:latest");
    assert_eq!(image_reference("team/app:v2"), "docker.io/library/team/app:latest");
    assert_eq!(image_reference("a:b:c"), "docker.io/library/a:b:latest");
    assert_eq!(image_reference("caf\u{e9}:\u{4e2d}"), "docker.io/library/caf\u{e9}:latest");
}

#[test]
fn colon_of_a_registry_port_is_no_tag() {
    assert_eq!(untag("localhost:5000/app"), "localhost:5000/app");
    assert_eq!(untag("localhost:5000/app:v1"), "localhost:5000/app");
    assert_eq!(untag("app"), "app");
    assert_eq!(untag("app:v1"), "app");
    assert_eq!(untag(":v1"), "");
    assert_eq!(untag("a/b/"), "a/b/");
    assert_eq!(
        image_reference("localhost:5000/app"),
        "docker.io/library/localhost:5000/app:latest"
    );
}

#[test]
fn container_request_replaces_the_tag_of_the_pod() {
    let pod = Pod {
        name: Some("web".to_string()),
        namespace: Some("default".to_string()),
        spec: Some(PodSpec {
            containers: vec![PodContainer {
                name: "web".to_string(),
                image: Some("nginx:1.19".to_string()),
            }],
        }),
    };
    let sandbox_req = create_sandbox(&pod);
    let req = create_container(&pod, &"sb-1".to_string(), &sandbox_req.config);
    assert_eq!(req.config.image.image, "docker.io/library/nginx:latest");
    assert_eq!(req.config.metadata.name, "web");
    assert_eq!(req.pod_sandbox_id, "sb-1");
}

#[test]
fn version_request_asks_for_version_one() {
    assert_eq!(version().version, "1");
}

#[test]
fn runnable_pod_needs_name_and_first_image() {
    assert!(web_pod().is_runnable());
    let mut unnamed = web_pod();
    unnamed.name = None;
    assert!(!unnamed.is_runnable());
    let mut no_spec = web_pod();
    no_spec.spec = None;
    assert!(!no_spec.is_runnable());
    let mut no_containers = web_pod();
    no_containers.spec = Some(PodSpec { containers: vec![] });
    assert!(!no_containers.is_runnable());
    let mut no_image = web_pod();
    no_image.spec = Some(PodSpec {
        containers: vec![PodContainer { name: "c".to_string(), image: None }],
    });
    assert!(!no_image.is_runnable());
}

#[test]
fn plan_holds_both_configurations() {
    let plan = minikubelet::provider::run_pod(&web_pod());
    assert_eq!(plan.sandbox.metadata.name, "web");
    assert_eq!(plan.sandbox.metadata.namespace, "default");
    assert_eq!(plan.container.metadata.name, "nginx");
    assert_eq!(plan.container.image.image, "docker.io/library/nginx:latest");
}

#[test]
fn sandbox_request_carries_pod_metadata() {
    let req = create_sandbox(&web_pod());
    assert_eq!(req.config.metadata.name, "web");
    assert_eq!(req.config.metadata.namespace, "default");
    assert_eq!(req.config.metadata.uid, "123");
    assert_eq!(req.config.metadata.attempt, 0);
    assert_eq!(req.config.hostname, "my_hostname");
    assert_eq!(req.config.log_directory, "/var/log/pods/sandbox");
    assert_eq!(req.runtime_handler, "");
}

#[test]
fn sandbox_namespace_defaults_when_pod_names_none() {
    let mut pod = web_pod();
    pod.namespace = None;
    assert_eq!(create_sandbox(&pod).config.metadata.namespace, "default");
    pod.namespace = Some("kube-system".to_string());
    assert_eq!(create_sandbox(&pod).config.metadata.namespace, "kube-system");
}

#[test]
fn container_request_uses_first_container_only() {
    let mut pod = web_pod();
    pod.spec.as_mut().unwrap().containers.push(PodContainer {
        name: "sidecar".to_string(),
        image: Some("envoy".to_string()),
    });
    let sandbox_req = create_sandbox(&pod);
    let req = create_container(&pod, &"sb-1".to_string(), &sandbox_req.config);
    assert_eq!(req.pod_sandbox_id, "sb-1");
    assert_eq!(req.config.metadata.name, "nginx");
    assert_eq!(req.config.metadata.attempt, 0);
    assert_eq!(req.config.image.image, "docker.io/library/nginx:latest");
    assert_eq!(req.config.log_path, "/var/log/pods/container");
    assert_eq!(req.sandbox_config.metadata.name, "web");
    assert_eq!(req.sandbox_config.hostname, "my_hostname");
}

#[test]
fn start_request_names_the_container() {
    assert_eq!(start_container(&"c-9".to_string()).container_id, "c-9");
}

#[test]
fn end_to_end_web_pod() {
    let (mut pipeline, first) = run_pod(web_pod());
    match first {
        RuntimeCall::RunPodSandbox(req) => {
            assert_eq!(req.config.metadata.name, "web");
            assert_eq!(req.config.metadata.namespace, "default");
        }
        other => panic!("unexpected first call {:?}", other),
    }
    assert_eq!(pipeline.stage, Stage::NoSandbox);

    let second = pipeline.advance(RuntimeReply::SandboxCreated("sb-1".to_string()));
    match second {
        RuntimeCall::CreateContainer(req) => {
            assert_eq!(req.pod_sandbox_id, "sb-1");
            assert_eq!(req.config.image.image, "docker.io/library/nginx:latest");
            assert_eq!(req.config.metadata.name, "nginx");
        }
        other => panic!("unexpected second call {:?}", other),
    }
    assert_eq!(pipeline.stage, Stage::SandboxReady);

    let third = pipeline.advance(RuntimeReply::ContainerCreated("c-1".to_string()));
    match third {
        RuntimeCall::StartContainer(req) => assert_eq!(req.container_id, "c-1"),
        other => panic!("unexpected third call {:?}", other),
    }
    assert_eq!(pipeline.stage, Stage::ContainerCreated);

    let fourth = pipeline.advance(RuntimeReply::ContainerStarted);
    assert!(matches!(fourth, RuntimeCall::WatchStatus));
    assert_eq!(pipeline.stage, Stage::Running);
    assert_eq!(pipeline.sandbox_id, "sb-1");
    assert_eq!(pipeline.container_id, "c-1");

    let sandboxes = vec![sandbox("sb-1", "web", "default")];
    let containers = vec![container("c-1", "sb-1", "nginx", 1)];
    let syncs = fetch_status_info(&sandboxes, &containers);
    assert_eq!(syncs.len(), 1);
    assert_eq!(syncs[0].namespace, "default");
    assert_eq!(syncs[0].name, "web");
    assert_eq!(syncs[0].phase, "Running");
    assert_eq!(syncs[0].container_statuses.len(), 1);
    assert_eq!(syncs[0].container_statuses[0].name, "nginx");
    assert_eq!(syncs[0].container_statuses[0].container_id, "c-1");
    assert!(syncs[0].container_statuses[0].ready);
    assert!(syncs[0].container_statuses[0].started);
    assert_eq!(syncs[0].container_statuses[0].restart_count, 0);
}

#[test]
fn empty_sandbox_id_fails_the_pipeline() {
    let (mut pipeline, _) = run_pod(web_pod());
    let call = pipeline.advance(RuntimeReply::SandboxCreated(String::new()));
    assert!(matches!(call, RuntimeCall::Abort));
    assert_eq!(pipeline.stage, Stage::Failed);
    assert!(matches!(
        pipeline.advance(RuntimeReply::ContainerCreated("c".to_string())),
        RuntimeCall::Nothing
    ));
}

#[test]
fn empty_container_id_fails_the_pipeline() {
    let (mut pipeline, _) = run_pod(web_pod());
    pipeline.advance(RuntimeReply::SandboxCreated("sb".to_string()));
    let call = pipeline.advance(RuntimeReply::ContainerCreated(String::new()));
    assert!(matches!(call, RuntimeCall::Abort));
    assert_eq!(pipeline.stage, Stage::Failed);
}

#[test]
fn rpc_failure_aborts_at_every_stage() {
    let (mut p, _) = run_pod(web_pod());
    assert!(matches!(p.advance(RuntimeReply::Failed), RuntimeCall::Abort));
    assert_eq!(p.stage, Stage::Failed);

    let (mut p, _) = run_pod(web_pod());
    p.advance(RuntimeReply::SandboxCreated("sb".to_string()));
    assert!(matches!(p.advance(RuntimeReply::Failed), RuntimeCall::Abort));
    assert_eq!(p.stage, Stage::Failed);

    let (mut p, _) = run_pod(web_pod());
    p.advance(RuntimeReply::SandboxCreated("sb".to_string()));
    p.advance(RuntimeReply::ContainerCreated("c".to_string()));
    assert!(matches!(p.advance(RuntimeReply::Failed), RuntimeCall::Abort));
    assert_eq!(p.stage, Stage::Failed);
}

#[test]
fn reply_out_of_turn_never_creates_or_starts() {
    let (mut p, _) = run_pod(web_pod());
    let call = p.advance(RuntimeReply::ContainerCreated("c".to_string()));
    assert!(matches!(call, RuntimeCall::Abort));
    let (mut p, _) = run_pod(web_pod());
    let call = p.advance(RuntimeReply::ContainerStarted);
    assert!(matches!(call, RuntimeCall::Abort));
    let (mut p, _) = run_pod(web_pod());
    p.advance(RuntimeReply::SandboxCreated("sb".to_string()));
    let call = p.advance(RuntimeReply::SandboxCreated("sb2".to_string()));
    assert!(matches!(call, RuntimeCall::Abort));
}

#[test]
fn running_pipeline_ignores_further_replies() {
    let (mut p, _) = run_pod(web_pod());
    p.advance(RuntimeReply::SandboxCreated("sb".to_string()));
    p.advance(RuntimeReply::ContainerCreated("c".to_string()));
    p.advance(RuntimeReply::ContainerStarted);
    assert!(matches!(p.advance(RuntimeReply::Failed), RuntimeCall::Nothing));
    assert_eq!(p.stage, Stage::Running);
    assert_eq!(p.container_id, "c");
}

#[test]
fn only_running_containers_are_reported() {
    let sandboxes = vec![sandbox("sb-1", "web", "default"), sandbox("sb-2", "db", "prod")];
    let containers = vec![
        container("c-0", "sb-1", "created", 0),
        container("c-1", "sb-2", "postgres", 1),
        container("c-2", "sb-1", "exited", 2),
        container("c-3", "sb-1", "nginx", 1),
        container("c-4", "sb-9", "orphan", 1),
        container("c-5", "sb-2", "unknown", 3),
    ];
    let syncs = fetch_status_info(&sandboxes, &containers);
    assert_eq!(syncs.len(), 2);
    assert_eq!((syncs[0].namespace.as_str(), syncs[0].name.as_str()), ("prod", "db"));
    assert_eq!(syncs[0].container_statuses[0].name, "postgres");
    assert_eq!(syncs[0].container_statuses[0].container_id, "c-1");
    assert_eq!((syncs[1].namespace.as_str(), syncs[1].name.as_str()), ("default", "web"));
    assert_eq!(syncs[1].container_statuses[0].name, "nginx");
    assert_eq!(syncs[1].container_statuses[0].image, "docker.io/library/nginx:latest");
}

#[test]
fn empty_listings_give_no_updates() {
    assert!(fetch_status_info(&vec![], &vec![]).is_empty());
    assert!(fetch_status_info(&vec![sandbox("sb", "web", "default")], &vec![]).is_empty());
    assert!(fetch_status_info(&vec![], &vec![container("c", "sb", "n", 1)]).is_empty());
}

#[test]
fn sandbox_without_metadata_is_fine_when_nothing_is_reported_for_it() {
    let sandboxes = vec![PodSandbox { id: "sb-1".to_string(), metadata: None }];
    let containers = vec![container("c", "sb-1", "n", 0), container("d", "sb-2", "m", 1)];
    assert!(fetch_status_info(&sandboxes, &containers).is_empty());
}

#[test]
fn applying_a_sync_twice_equals_applying_it_once() {
    let sync = update_status(
        &"web".to_string(),
        &"default".to_string(),
        &container("c-1", "sb-1", "nginx", 1),
    );
    let mut once = PodStatus { phase: "Pending".to_string(), container_statuses: vec![] };
    once.apply(&sync);
    let mut twice = PodStatus { phase: "Pending".to_string(), container_statuses: vec![] };
    twice.apply(&sync);
    twice.apply(&sync);
    assert_eq!(once.phase, "Running");
    assert_eq!(twice.phase, once.phase);
    assert_eq!(once.container_statuses.len(), 1);
    assert_eq!(twice.container_statuses.len(), 1);
    assert_eq!(twice.container_statuses[0].name, once.container_statuses[0].name);
    assert_eq!(twice.container_statuses[0].container_id, "c-1");
    assert_eq!(twice.container_statuses[0].image, once.container_statuses[0].image);
    assert_eq!(twice.container_statuses[0].ready, once.container_statuses[0].ready);
    assert_eq!(twice.container_statuses[0].started, once.container_statuses[0].started);
    assert_eq!(twice.container_statuses[0].restart_count, 0);
}

#[test]
fn apply_overwrites_earlier_entries() {
    let old = update_status(&"web".to_string(), &"default".to_string(), &container("a", "s", "one", 1));
    let new = update_status(&"web".to_string(), &"default".to_string(), &container("b", "s", "two", 1));
    let mut status = PodStatus { phase: String::new(), container_statuses: vec![] };
    status.apply(&old);
    status.apply(&new);
    assert_eq!(status.container_statuses.len(), 1);
    assert_eq!(status.container_statuses[0].name, "two");
    assert_eq!(status.container_statuses[0].container_id, "b");
}

fn patched_name(call: PollCall) -> String {
    match call {
        PollCall::Patch(sync) => {
            assert_eq!(sync.phase, "Running");
            format!("{}/{}", sync.namespace, sync.name)
        }
        other => panic!("unexpected call {:?}", other),
    }
}

#[test]
fn reconciler_lists_on_tick_and_sends_each_update_in_turn() {
    let mut r = Reconciler::new();
    assert!(r.pending.is_empty());
    assert!(matches!(r.advance(PollReply::Tick), PollCall::List));
    let sandboxes = vec![sandbox("sb-1", "web", "default"), sandbox("sb-2", "db", "prod")];
    let containers = vec![
        container("c-1", "sb-2", "postgres", 1),
        container("c-2", "sb-1", "nginx", 1),
        container("c-3", "sb-1", "exited", 2),
    ];
    assert_eq!(patched_name(r.advance(PollReply::Listed(sandboxes, containers))), "prod/db");
    assert_eq!(r.pending.len(), 1);
    assert_eq!(patched_name(r.advance(PollReply::Patched)), "default/web");
    assert!(r.pending.is_empty());
    match r.advance(PollReply::Patched) {
        PollCall::Sleep(s) => {
            assert_eq!(s, 4);
            assert_eq!(s, STATUS_POLL_SECONDS);
        }
        other => panic!("unexpected call {:?}", other),
    }
    assert!(matches!(r.advance(PollReply::Tick), PollCall::List));
}

#[test]
fn failed_listing_abandons_the_poll_and_the_loop_goes_on() {
    let mut r = Reconciler::new();
    assert!(matches!(r.advance(PollReply::Tick), PollCall::List));
    assert!(matches!(r.advance(PollReply::ListingFailed), PollCall::Sleep(4)));
    assert!(r.pending.is_empty());
    assert!(matches!(r.advance(PollReply::Tick), PollCall::List));
    let call = r.advance(PollReply::Listed(
        vec![sandbox("sb", "web", "default")],
        vec![container("c", "sb", "nginx", 1)],
    ));
    assert_eq!(patched_name(call), "default/web");
}

#[test]
fn failed_update_abandons_the_poll_and_the_loop_goes_on() {
    let mut r = Reconciler::new();
    r.advance(PollReply::Tick);
    let sandboxes = vec![sandbox("sb-1", "web", "default"), sandbox("sb-2", "db", "prod")];
    let containers = vec![
        container("c-1", "sb-1", "nginx", 1),
        container("c-2", "sb-2", "postgres", 1),
        container("c-3", "sb-2", "cache", 1),
    ];
    assert_eq!(patched_name(r.advance(PollReply::Listed(sandboxes, containers))), "default/web");
    assert_eq!(r.pending.len(), 2);
    assert!(matches!(r.advance(PollReply::PatchFailed), PollCall::Sleep(4)));
    assert!(r.pending.is_empty());
    assert!(matches!(r.advance(PollReply::Tick), PollCall::List));
    let call = r.advance(PollReply::Listed(
        vec![sandbox("sb-2", "db", "prod")],
        vec![container("c-2", "sb-2", "postgres", 1)],
    ));
    assert_eq!(patched_name(call), "prod/db");
    assert!(matches!(r.advance(PollReply::Patched), PollCall::Sleep(4)));
}

#[test]
fn failed_last_update_leads_to_the_wait() {
    let mut r = Reconciler::new();
    r.advance(PollReply::Tick);
    let call = r.advance(PollReply::Listed(
        vec![sandbox("sb", "web", "default")],
        vec![container("c", "sb", "nginx", 1)],
    ));
    assert_eq!(patched_name(call), "default/web");
    assert!(matches!(r.advance(PollReply::PatchFailed), PollCall::Sleep(4)));
    assert!(matches!(r.advance(PollReply::Tick), PollCall::List));
}

#[test]
fn listing_without_running_containers_leads_to_the_wait() {
    let mut r = Reconciler::new();
    r.advance(PollReply::Tick);
    let call = r.advance(PollReply::Listed(
        vec![sandbox("sb", "web", "default")],
        vec![container("c", "sb", "nginx", 0)],
    ));
    assert!(matches!(call, PollCall::Sleep(4)));
    assert!(matches!(r.advance(PollReply::Listed(vec![], vec![])), PollCall::Sleep(4)));
}

#[test]
fn tick_drops_what_was_pending() {
    let mut r = Reconciler::new();
    let sandboxes = vec![sandbox("sb-1", "web", "default")];
    let containers =
        vec![container("c-1", "sb-1", "one", 1), container("c-2", "sb-1", "two", 1)];
    r.advance(PollReply::Listed(sandboxes, containers));
    assert_eq!(r.pending.len(), 1);
    assert!(matches!(r.advance(PollReply::Tick), PollCall::List));
    assert!(r.pending.is_empty());
}
