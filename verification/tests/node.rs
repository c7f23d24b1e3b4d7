use minikubelet::kubelet::minikubelet::{
    create, lease_definition, lease_spec_definition, update_lease, update_status, ApiCall,
    ApiReply, Kubelet, Phase, Timestamp, LEASE_DURATION_SECONDS, RENEW_INTERVAL_SECONDS,
};
use minikubelet::nodemod::node::{Builder, Node, StringMap};

fn name() -> String {
    "my-imac".to_string()
}

fn at(micros: i64) -> Timestamp {
    Timestamp::from_micros(micros).unwrap()
}

#[test]
fn timestamp_text_is_rfc3339_with_micros() {
    let t = at(0);
    assert_eq!(t.micros, 0);
    assert_eq!(t.text, "1970-01-01T00:00:00.000000Z");
    assert_eq!(at(1_700_000_000_123_456).text, "2023-11-14T22:13:20.123456Z");
    assert_eq!(at(-1).text, "1969-12-31T23:59:59.999999Z");
    assert_eq!(at(1_000_000).text, "1970-01-01T00:00:01.000000Z");
    let copy = t.duplicate();
    assert_eq!(copy.micros, 0);
    assert_eq!(copy.text, t.text);
}

#[test]
fn timestamp_beyond_the_calendar_is_none() {
    assert!(Timestamp::from_micros(i64::MAX).is_none());
    assert!(Timestamp::from_micros(i64::MIN).is_none());
}

#[test]
fn string_map_insert_replaces_and_get_finds() {
    let mut m = StringMap::new();
    assert_eq!(m.len(), 0);
    assert!(m.get("a").is_none());
    m.insert("a", "1");
    m.insert("b", "2");
    assert_eq!(m.len(), 2);
    assert_eq!(m.get("a").unwrap(), "1");
    assert_eq!(m.get("b").unwrap(), "2");
    m.insert("a", "3");
    assert_eq!(m.len(), 2);
    assert_eq!(m.get("a").unwrap(), "3");
    assert_eq!(m.get("b").unwrap(), "2");
    assert!(m.get("c").is_none());
    assert!(m.get("").is_none());
}

#[test]
fn builder_starts_with_defaults() {
    let node = Node::builder().build().into_inner();
    assert_eq!(node.name, "krustlet");
    assert_eq!(node.pod_cidr, "10.244.0.0/24");
    assert_eq!(node.architecture, "");
    assert_eq!(node.kube_proxy_version, "v1.17.0");
    assert_eq!(node.kubelet_version, "v1.24.7");
    assert_eq!(node.container_runtime_version, "mvp");
    assert_eq!(node.operating_system, "linux");
    assert_eq!(node.port, 10250);
    assert_eq!(node.annotations.len(), 0);
    assert_eq!(node.labels.len(), 0);
    assert_eq!(node.capacity.len(), 0);
    assert_eq!(node.allocatable.len(), 0);
    let d = Builder::default();
    assert_eq!(d.name, "krustlet");
    assert_eq!(d.port, 10250);
}

#[test]
fn builder_setters_change_one_field_each() {
    let mut b = Node::builder();
    b.set_name("n1");
    b.add_annotation("a", "x");
    b.add_annotation("a", "y");
    b.add_label("l", "z");
    b.add_capacity("cpu", "8");
    b.add_capacity("memory", "1Gi");
    let node = b.build().into_inner();
    assert_eq!(node.name, "n1");
    assert_eq!(node.annotations.len(), 1);
    assert_eq!(node.annotations.get("a").unwrap(), "y");
    assert_eq!(node.labels.get("l").unwrap(), "z");
    assert_eq!(node.capacity.get("cpu").unwrap(), "8");
    assert_eq!(node.capacity.get("memory").unwrap(), "1Gi");
    assert_eq!(node.allocatable.len(), 0);
    assert_eq!(node.pod_cidr, "10.244.0.0/24");
}

#[test]
fn registration_has_fixed_annotations_labels_and_capacity() {
    let node = create(&name());
    assert_eq!(node.name, "my-imac");
    assert_eq!(node.annotations.len(), 2);
    assert_eq!(node.annotations.get("node.alpha.kubernetes.io/ttl").unwrap(), "0");
    assert_eq!(
        node.annotations.get("volumes.kubernetes.io/controller-managed-attach-detach").unwrap(),
        "true"
    );
    assert_eq!(node.labels.len(), 2);
    assert_eq!(node.labels.get("kubernetes.io/hostname").unwrap(), "my-imac");
    assert_eq!(node.labels.get("node-role.kubernetes.io/worker").unwrap(), "");
    assert_eq!(node.capacity.len(), 1);
    assert_eq!(node.capacity.get("cpu").unwrap(), "4");
    assert_eq!(node.kubelet_version, "v1.24.7");
}

#[test]
fn lease_is_owned_by_the_node_uid() {
    let lease = lease_definition(&"uid-1".to_string(), &name(), &at(1_700_000_000_000_000));
    assert_eq!(lease.api_version, "coordination.k8s.io/v1");
    assert_eq!(lease.kind, "Lease");
    assert_eq!(lease.namespace, "kube-node-lease");
    assert_eq!(lease.name, "my-imac");
    assert_eq!(lease.owner.api_version, "v1");
    assert_eq!(lease.owner.kind, "Node");
    assert_eq!(lease.owner.name, "my-imac");
    assert_eq!(lease.owner.uid, "uid-1");
    assert_eq!(lease.spec.holder_identity, "my-imac");
    assert_eq!(lease.spec.acquire_time.micros, 1_700_000_000_000_000);
    assert_eq!(lease.spec.renew_time.micros, 1_700_000_000_000_000);
    assert_eq!(lease.spec.acquire_time.text, "2023-11-14T22:13:20.000000Z");
    assert_eq!(lease.spec.renew_time.text, "2023-11-14T22:13:20.000000Z");
    assert_eq!(lease.spec.lease_duration_seconds, 300);
    assert_eq!(LEASE_DURATION_SECONDS, 300);
    let spec = lease_spec_definition(&name(), &at(-5));
    assert_eq!(spec.acquire_time.micros, -5);
    assert_eq!(spec.renew_time.micros, -5);
    assert_eq!(spec.holder_identity, "my-imac");
}

#[test]
fn renewal_names_only_the_renew_time() {
    let r = update_lease(&name(), at(42));
    assert_eq!(r.namespace, "kube-node-lease");
    assert_eq!(r.name, "my-imac");
    assert_eq!(r.renew_time.micros, 42);
    assert_eq!(r.renew_time.text, "1970-01-01T00:00:00.000042Z");
}

#[test]
fn ready_condition_is_fixed_but_for_the_heartbeat() {
    let c = update_status(&name(), at(7));
    assert_eq!(c.node_name, "my-imac");
    assert_eq!(c.last_heartbeat_time.micros, 7);
    assert_eq!(c.message, "kubelet is posting ready status");
    assert_eq!(c.reason, "KubeletReady");
    assert_eq!(c.status, "True");
    assert_eq!(c.type_, "Ready");
}

#[test]
fn start_looks_the_node_up_once() {
    let mut k = Kubelet::new(name());
    assert_eq!(k.phase, Phase::Idle);
    assert!(k.uid().is_none());
    match k.start() {
        ApiCall::GetNode(n) => assert_eq!(n, "my-imac"),
        other => panic!("unexpected call {:?}", other),
    }
    assert_eq!(k.phase, Phase::LookingUp);
    assert!(matches!(k.start(), ApiCall::Nothing));
    assert_eq!(k.phase, Phase::LookingUp);
}

#[test]
fn found_node_gives_its_uid_to_the_lease() {
    let mut k = Kubelet::new(name());
    k.start();
    match k.update(ApiReply::NodeFound("uid-7".to_string()), at(100)) {
        ApiCall::CreateLease(lease) => {
            assert_eq!(lease.owner.uid, "uid-7");
            assert_eq!(lease.name, "my-imac");
            assert_eq!(lease.spec.renew_time.micros, 100);
        }
        other => panic!("unexpected call {:?}", other),
    }
    assert_eq!(k.uid().unwrap(), "uid-7");
    assert_eq!(k.phase, Phase::CreatingLease);
}

#[test]
fn missing_node_is_created_then_its_uid_is_used() {
    let mut k = Kubelet::new(name());
    k.start();
    match k.update(ApiReply::NodeMissing, at(1)) {
        ApiCall::CreateNode(node) => {
            assert_eq!(node.name, "my-imac");
            assert_eq!(node.capacity.get("cpu").unwrap(), "4");
        }
        other => panic!("unexpected call {:?}", other),
    }
    assert!(k.uid().is_none());
    assert_eq!(k.phase, Phase::Creating);
    match k.update(ApiReply::NodeCreated("uid-new".to_string()), at(2)) {
        ApiCall::CreateLease(lease) => assert_eq!(lease.owner.uid, "uid-new"),
        other => panic!("unexpected call {:?}", other),
    }
    assert_eq!(k.uid().unwrap(), "uid-new");
}

#[test]
fn lookup_error_is_terminal() {
    let mut k = Kubelet::new(name());
    k.start();
    assert!(matches!(k.update(ApiReply::Failed, at(1)), ApiCall::Stop));
    assert_eq!(k.phase, Phase::Stopped);
    assert!(k.uid().is_none());
    assert!(matches!(k.update(ApiReply::NodeFound("u".to_string()), at(2)), ApiCall::Stop));
    assert!(k.uid().is_none());
}

#[test]
fn create_error_is_terminal() {
    let mut k = Kubelet::new(name());
    k.start();
    k.update(ApiReply::NodeMissing, at(1));
    assert!(matches!(k.update(ApiReply::Failed, at(2)), ApiCall::Stop));
    assert_eq!(k.phase, Phase::Stopped);
}

#[test]
fn reply_before_start_stops_the_agent() {
    let mut k = Kubelet::new(name());
    assert!(matches!(k.update(ApiReply::NodeFound("u".to_string()), at(1)), ApiCall::Stop));
    assert_eq!(k.phase, Phase::Stopped);
    assert!(k.uid().is_none());
}

fn renew_time(call: ApiCall) -> i64 {
    match call {
        ApiCall::PatchLease(r) => {
            assert_eq!(r.name, "my-imac");
            r.renew_time.micros
        }
        other => panic!("unexpected call {:?}", other),
    }
}

#[test]
fn lease_conflict_is_tolerated_and_renewal_cycles() {
    let mut k = Kubelet::new(name());
    k.start();
    k.update(ApiReply::NodeFound("uid".to_string()), at(10));
    assert_eq!(renew_time(k.update(ApiReply::Conflict, at(11))), 11);
    assert_eq!(k.phase, Phase::PatchingLease);
    match k.update(ApiReply::Done, at(12)) {
        ApiCall::PatchNodeStatus(c) => {
            assert_eq!(c.last_heartbeat_time.micros, 12);
            assert_eq!(c.type_, "Ready");
        }
        other => panic!("unexpected call {:?}", other),
    }
    assert_eq!(k.last_renew, Some(11));
    match k.update(ApiReply::Done, at(13)) {
        ApiCall::Sleep(s) => {
            assert_eq!(s, 20);
            assert_eq!(s, RENEW_INTERVAL_SECONDS);
        }
        other => panic!("unexpected call {:?}", other),
    }
    assert_eq!(renew_time(k.update(ApiReply::Tick, at(33))), 33);
    assert_eq!(k.uid().unwrap(), "uid");
}

#[test]
fn failed_patches_do_not_end_the_loop() {
    let mut k = Kubelet::new(name());
    k.start();
    k.update(ApiReply::NodeFound("uid".to_string()), at(10));
    k.update(ApiReply::Failed, at(11));
    assert_eq!(k.phase, Phase::PatchingLease);
    assert!(matches!(k.update(ApiReply::Failed, at(12)), ApiCall::Sleep(20)));
    assert_eq!(k.phase, Phase::Sleeping);
    assert_eq!(k.last_renew, None);
    assert_eq!(renew_time(k.update(ApiReply::Tick, at(40))), 40);
    assert!(matches!(k.update(ApiReply::Done, at(41)), ApiCall::PatchNodeStatus(_)));
    assert_eq!(k.last_renew, Some(40));
    assert_eq!(k.phase, Phase::PatchingStatus);
    assert!(matches!(k.update(ApiReply::Failed, at(42)), ApiCall::Sleep(20)));
    assert_eq!(renew_time(k.update(ApiReply::Tick, at(60))), 60);
    assert!(matches!(k.update(ApiReply::Conflict, at(61)), ApiCall::Sleep(20)));
    assert_eq!(k.last_renew, Some(40));
    assert_eq!(k.uid().unwrap(), "uid");
}

#[test]
fn renew_times_follow_a_steady_clock() {
    let mut k = Kubelet::new(name());
    k.start();
    k.update(ApiReply::NodeFound("uid".to_string()), at(0));
    let mut now = 5;
    let mut last = i64::MIN;
    let mut reply = ApiReply::Done;
    for _ in 0..30 {
        let call = k.update(reply, at(now));
        if let ApiCall::PatchLease(r) = &call {
            assert!(r.renew_time.micros >= last);
            assert_eq!(r.renew_time.micros, now);
            last = r.renew_time.micros;
        }
        reply = match call {
            ApiCall::Sleep(_) => ApiReply::Tick,
            _ => ApiReply::Done,
        };
        now += 7;
        assert_eq!(k.uid().unwrap(), "uid");
    }
    assert!(last > 5);
}

#[test]
fn step_reads_the_clock() {
    let mut k = Kubelet::new(name());
    k.start();
    match k.step(ApiReply::NodeFound("uid".to_string())) {
        Some(ApiCall::CreateLease(lease)) => {
            assert!(lease.spec.renew_time.micros > 1_600_000_000_000_000);
            assert_eq!(lease.spec.acquire_time.micros, lease.spec.renew_time.micros);
            assert_eq!(lease.spec.acquire_time.text, lease.spec.renew_time.text);
            assert_eq!(lease.spec.renew_time.text, at(lease.spec.renew_time.micros).text);
        }
        other => panic!("unexpected call {:?}", other),
    }
    let first = renew_time(k.step(ApiReply::Done).unwrap());
    assert!(first > 1_600_000_000_000_000);
}

#[test]
fn renew_time_never_goes_back_when_the_clock_does() {
    let mut k = Kubelet::new(name());
    k.start();
    match k.update(ApiReply::NodeFound("uid".to_string()), at(100)) {
        ApiCall::CreateLease(lease) => assert_eq!(lease.spec.renew_time.micros, 100),
        other => panic!("unexpected call {:?}", other),
    }
    match k.update(ApiReply::Done, at(90)) {
        ApiCall::PatchLease(r) => {
            assert_eq!(r.renew_time.micros, 100);
            assert_eq!(r.renew_time.text, "1970-01-01T00:00:00.000100Z");
        }
        other => panic!("unexpected call {:?}", other),
    }
    match k.update(ApiReply::Done, at(91)) {
        ApiCall::PatchNodeStatus(c) => assert_eq!(c.last_heartbeat_time.micros, 91),
        other => panic!("unexpected call {:?}", other),
    }
    assert_eq!(k.last_renew, Some(100));
    k.update(ApiReply::Done, at(92));
    assert_eq!(renew_time(k.update(ApiReply::Tick, at(150))), 150);
    k.update(ApiReply::Done, at(151));
    assert_eq!(k.last_renew, Some(150));
    k.update(ApiReply::Done, at(152));
    assert_eq!(renew_time(k.update(ApiReply::Tick, at(50))), 150);
    k.update(ApiReply::Done, at(51));
    assert_eq!(k.last_renew, Some(150));
    k.update(ApiReply::Done, at(52));
    assert_eq!(renew_time(k.update(ApiReply::Tick, at(150))), 150);
    k.update(ApiReply::Failed, at(151));
    assert_eq!(renew_time(k.update(ApiReply::Tick, at(151))), 151);
    assert_eq!(k.last_renew, Some(150));
    assert!(k.is_wf());
}

#[test]
fn agent_with_a_success_later_than_what_it_sent_is_not_well_formed() {
    let mut k = Kubelet::new(name());
    assert!(k.is_wf());
    k.last_renew = Some(5);
    assert!(!k.is_wf());
    k.renew_sent = Some(at(4));
    assert!(!k.is_wf());
    k.renew_sent = Some(at(5));
    assert!(k.is_wf());
}

#[test]
fn step_at_answers_for_the_given_time() {
    let mut k = Kubelet::new(name());
    k.start();
    match k.step_at(ApiReply::NodeFound("uid".to_string()), 1_700_000_000_123_456) {
        Some(ApiCall::CreateLease(lease)) => {
            assert_eq!(lease.owner.uid, "uid");
            assert_eq!(lease.spec.renew_time.micros, 1_700_000_000_123_456);
            assert_eq!(lease.spec.renew_time.text, "2023-11-14T22:13:20.123456Z");
        }
        other => panic!("unexpected call {:?}", other),
    }
    assert_eq!(k.phase, Phase::CreatingLease);
    assert_eq!(k.renew_sent.as_ref().unwrap().micros, 1_700_000_000_123_456);
    assert_eq!(
        renew_time(k.step_at(ApiReply::Done, 1_700_000_020_000_000).unwrap()),
        1_700_000_020_000_000
    );
    assert_eq!(k.renew_sent.as_ref().unwrap().micros, 1_700_000_020_000_000);
    assert_eq!(k.renew_sent.as_ref().unwrap().text, "2023-11-14T22:13:40.000000Z");
}

#[test]
fn step_at_beyond_the_calendar_leaves_the_agent_alone() {
    let mut k = Kubelet::new(name());
    k.start();
    assert!(k.step_at(ApiReply::NodeFound("uid".to_string()), i64::MAX).is_none());
    assert_eq!(k.phase, Phase::LookingUp);
    assert!(k.uid().is_none());
    assert!(k.renew_sent.is_none());
    assert_eq!(k.last_renew, None);
    assert_eq!(k.node_name, "my-imac");
    match k.step_at(ApiReply::NodeFound("uid".to_string()), 0) {
        Some(ApiCall::CreateLease(lease)) => assert_eq!(lease.owner.uid, "uid"),
        other => panic!("unexpected call {:?}", other),
    }
}
