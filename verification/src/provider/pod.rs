//! The pod execution pipeline and the status reconciler.
//!
//! The pipeline is a state machine: each reply of the runtime is answered by
//! the next call to make. The reconciler turns one pair of runtime listings
//! into the status updates to send to the cluster.

use vstd::prelude::*;
use vstd::string::*;
use super::cri::{
    Container, CreateContainerRequest, PodSandbox, PodSandboxConfig, RunPodSandboxRequest,
    StartContainerRequest, CONTAINER_RUNNING,
};
use super::{
    container_config, is_container_config_of, is_sandbox_config_of, sandbox_config, Pod,
};

verus! {

/// Seconds between two polls of the reconciler.
pub const STATUS_POLL_SECONDS: u64 = 4;

/// The sandbox request for a pod.
pub fn create_sandbox(o: &Pod) -> (r: RunPodSandboxRequest)
    requires
        o.has_name(),
    ensures
        is_sandbox_config_of(r.config, *o),
        r.runtime_handler@ == Seq::<char>::empty(),
{
    RunPodSandboxRequest { config: sandbox_config(o), runtime_handler: String::new() }
}

/// The container request for a pod, inside the sandbox `pod_sandbox_id` that
/// was created from `sandbox_config`.
pub fn create_container(o: &Pod, pod_sandbox_id: &String, sandbox_config: &PodSandboxConfig) -> (r:
    CreateContainerRequest)
    requires
        o.has_first_image(),
    ensures
        r.pod_sandbox_id == *pod_sandbox_id,
        r.sandbox_config == *sandbox_config,
        is_container_config_of(r.config, *o),
{
    CreateContainerRequest {
        pod_sandbox_id: pod_sandbox_id.clone(),
        config: container_config(o),
        sandbox_config: sandbox_config.duplicate(),
    }
}

/// The start request for a container.
pub fn start_container(container_id: &String) -> (r: StartContainerRequest)
    ensures
        r.container_id == *container_id,
{
    StartContainerRequest { container_id: container_id.clone() }
}

/// Where the pipeline of one pod stands.
#[derive(Clone, Copy, Debug, PartialEq, Eq, Structural)]
pub enum Stage {
    /// `RunPodSandbox` was sent; no sandbox id is known.
    NoSandbox,
    /// The sandbox exists; `CreateContainer` was sent.
    SandboxReady,
    /// The container exists; `StartContainer` was sent.
    ContainerCreated,
    /// The container was started. Terminal.
    Running,
    /// A call failed or answered out of turn. Terminal.
    Failed,
}

/// What the runtime answered to the last call.
#[derive(Debug)]
pub enum RuntimeReply {
    SandboxCreated(String),
    ContainerCreated(String),
    ContainerStarted,
    /// The call failed, whatever the cause.
    Failed,
}

/// What the driver does next.
#[derive(Debug)]
pub enum RuntimeCall {
    RunPodSandbox(RunPodSandboxRequest),
    CreateContainer(CreateContainerRequest),
    StartContainer(StartContainerRequest),
    /// The container runs: launch the status reconciler.
    WatchStatus,
    /// The pipeline failed: make no further call for this pod.
    Abort,
    /// The pipeline had ended before: nothing to do.
    Nothing,
}

/// The pipeline of one pod.
#[derive(Debug)]
pub struct Pipeline {
    pub pod: Pod,
    pub stage: Stage,
    pub sandbox_config: PodSandboxConfig,
    pub sandbox_id: String,
    pub container_id: String,
}

impl Pipeline {
    /// A container id is known only once the sandbox id is, and neither is
    /// empty once known.
    pub open spec fn wf(&self) -> bool {
        &&& self.pod.runnable()
        &&& self.stage == Stage::NoSandbox ==> self.sandbox_id@.len() == 0
        &&& (self.stage == Stage::NoSandbox || self.stage == Stage::SandboxReady)
            ==> self.container_id@.len() == 0
        &&& (self.stage == Stage::SandboxReady || self.stage == Stage::ContainerCreated
            || self.stage == Stage::Running) ==> self.sandbox_id@.len() > 0
        &&& (self.stage == Stage::ContainerCreated || self.stage == Stage::Running)
            ==> self.container_id@.len() > 0
    }

    /// Tells whether the pipeline is well-formed.
    pub fn is_wf(&self) -> (r: bool)
        ensures
            r == self.wf(),
    {
        let no_sandbox = self.sandbox_id.as_str().is_empty();
        let no_container = self.container_id.as_str().is_empty();
        self.pod.is_runnable() && match self.stage {
            Stage::NoSandbox => no_sandbox && no_container,
            Stage::SandboxReady => !no_sandbox && no_container,
            Stage::ContainerCreated => !no_sandbox && !no_container,
            Stage::Running => !no_sandbox && !no_container,
            Stage::Failed => true,
        }
    }

    /// The stage that follows `stage` on `reply`.
    pub open spec fn next_stage(stage: Stage, reply: RuntimeReply) -> Stage {
        match (stage, reply) {
            (Stage::NoSandbox, RuntimeReply::SandboxCreated(id)) => if id@.len() > 0 {
                Stage::SandboxReady
            } else {
                Stage::Failed
            },
            (Stage::SandboxReady, RuntimeReply::ContainerCreated(id)) => if id@.len() > 0 {
                Stage::ContainerCreated
            } else {
                Stage::Failed
            },
            (Stage::ContainerCreated, RuntimeReply::ContainerStarted) => Stage::Running,
            (Stage::Running, _) => Stage::Running,
            _ => Stage::Failed,
        }
    }

    /// Whether `call` is the answer of a pipeline in state `pre` to `reply`,
    /// `post` being the pipeline afterwards.
    pub open spec fn answers(pre: Pipeline, reply: RuntimeReply, post: Pipeline, call: RuntimeCall)
        -> bool {
        let stage = Self::next_stage(pre.stage, reply);
        &&& post.stage == stage
        &&& post.pod == pre.pod
        &&& post.sandbox_config == pre.sandbox_config
        &&& match call {
            RuntimeCall::RunPodSandbox(_) => false,
            RuntimeCall::CreateContainer(req) => {
                &&& pre.stage == Stage::NoSandbox
                &&& stage == Stage::SandboxReady
                &&& reply matches RuntimeReply::SandboxCreated(id)
                &&& post.sandbox_id == id
                &&& post.container_id == pre.container_id
                &&& req.pod_sandbox_id == id
                &&& req.sandbox_config == pre.sandbox_config
                &&& is_container_config_of(req.config, pre.pod)
            },
            RuntimeCall::StartContainer(req) => {
                &&& pre.stage == Stage::SandboxReady
                &&& stage == Stage::ContainerCreated
                &&& reply matches RuntimeReply::ContainerCreated(id)
                &&& post.sandbox_id == pre.sandbox_id
                &&& post.container_id == id
                &&& req.container_id == id
            },
            RuntimeCall::WatchStatus => {
                &&& pre.stage == Stage::ContainerCreated
                &&& stage == Stage::Running
                &&& post.sandbox_id == pre.sandbox_id
                &&& post.container_id == pre.container_id
            },
            RuntimeCall::Abort => {
                &&& pre.stage != Stage::Failed
                &&& stage == Stage::Failed
                &&& post.sandbox_id == pre.sandbox_id
                &&& post.container_id == pre.container_id
            },
            RuntimeCall::Nothing => {
                &&& pre.stage == stage
                &&& (stage == Stage::Running || stage == Stage::Failed)
                &&& post.sandbox_id == pre.sandbox_id
                &&& post.container_id == pre.container_id
            },
        }
    }

    /// Answers one reply of the runtime with the next call.
    ///
    /// A sandbox id admits `CreateContainer` only if it is not empty and the
    /// sandbox was awaited; a container id admits `StartContainer` in the
    /// same way. Any failure, and any reply out of turn, ends the pipeline.
    pub fn advance(&mut self, reply: RuntimeReply) -> (call: RuntimeCall)
        requires
            old(self).wf(),
        ensures
            final(self).wf(),
            Self::answers(*old(self), reply, *final(self), call),
    {
        match self.stage {
            Stage::NoSandbox => {
                if let RuntimeReply::SandboxCreated(id) = reply {
                    if !id.as_str().is_empty() {
                        let req = create_container(&self.pod, &id, &self.sandbox_config);
                        self.sandbox_id = id;
                        self.stage = Stage::SandboxReady;
                        return RuntimeCall::CreateContainer(req);
                    }
                }
                self.stage = Stage::Failed;
                RuntimeCall::Abort
            },
            Stage::SandboxReady => {
                if let RuntimeReply::ContainerCreated(id) = reply {
                    if !id.as_str().is_empty() {
                        let req = start_container(&id);
                        self.container_id = id;
                        self.stage = Stage::ContainerCreated;
                        return RuntimeCall::StartContainer(req);
                    }
                }
                self.stage = Stage::Failed;
                RuntimeCall::Abort
            },
            Stage::ContainerCreated => {
                if let RuntimeReply::ContainerStarted = reply {
                    self.stage = Stage::Running;
                    RuntimeCall::WatchStatus
                } else {
                    self.stage = Stage::Failed;
                    RuntimeCall::Abort
                }
            },
            Stage::Running => RuntimeCall::Nothing,
            Stage::Failed => RuntimeCall::Nothing,
        }
    }
}

/// Starts the pipeline of a pod: the first call is `RunPodSandbox` with the
/// pod's sandbox configuration.
pub fn run_pod(o: Pod) -> (r: (Pipeline, RuntimeCall))
    requires
        o.runnable(),
    ensures
        r.0.wf(),
        r.0.pod == o,
        r.0.stage == Stage::NoSandbox,
        is_sandbox_config_of(r.0.sandbox_config, o),
        r.1 matches RuntimeCall::RunPodSandbox(req) && req.config == r.0.sandbox_config
            && req.runtime_handler@ == Seq::<char>::empty(),
{
    let req = create_sandbox(&o);
    let pipeline = Pipeline {
        sandbox_config: req.config.duplicate(),
        pod: o,
        stage: Stage::NoSandbox,
        sandbox_id: String::new(),
        container_id: String::new(),
    };
    (pipeline, RuntimeCall::RunPodSandbox(req))
}

/// One exchange of a pipeline: the reply received and the call that
/// answered it.
pub struct Exchange {
    pub reply: RuntimeReply,
    pub call: RuntimeCall,
}

/// The `i`-th exchange leads from the `i`-th state to the next.
pub open spec fn exchange_ok(states: Seq<Pipeline>, exchanges: Seq<Exchange>, i: int) -> bool {
    Pipeline::answers(states[i], exchanges[i].reply, states[i + 1], exchanges[i].call)
}

/// A run of the pipeline of one pod: its states, from the one that
/// `run_pod` returns on, and the exchanges that lead from each to the next.
pub open spec fn is_run(states: Seq<Pipeline>, exchanges: Seq<Exchange>) -> bool {
    &&& states.len() == exchanges.len() + 1
    &&& states[0].wf()
    &&& states[0].stage == Stage::NoSandbox
    &&& forall|i: int| 0 <= i < exchanges.len() ==> #[trigger] exchange_ok(states, exchanges, i)
}

/// `CreateContainer` is sent only in answer to the reply of `RunPodSandbox`
/// that carries a sandbox id which is not empty, and it names that sandbox.
pub proof fn lemma_container_after_sandbox(
    states: Seq<Pipeline>,
    exchanges: Seq<Exchange>,
    i: int,
)
    requires
        is_run(states, exchanges),
        0 <= i < exchanges.len(),
        exchanges[i].call is CreateContainer,
    ensures
        exchanges[i].reply is SandboxCreated,
        exchanges[i].reply->SandboxCreated_0@.len() > 0,
        exchanges[i].call->CreateContainer_0.pod_sandbox_id == exchanges[i].reply->SandboxCreated_0,
        is_container_config_of(exchanges[i].call->CreateContainer_0.config, states[0].pod),
{
    assert(exchange_ok(states, exchanges, i));
    lemma_same_pod(states, exchanges, i);
}

/// `StartContainer` is sent only in answer to the reply of
/// `CreateContainer` that carries a container id which is not empty, and it
/// names that container; `CreateContainer` was the call just before.
pub proof fn lemma_start_after_container(states: Seq<Pipeline>, exchanges: Seq<Exchange>, i: int)
    requires
        is_run(states, exchanges),
        0 <= i < exchanges.len(),
        exchanges[i].call is StartContainer,
    ensures
        exchanges[i].reply is ContainerCreated,
        exchanges[i].reply->ContainerCreated_0@.len() > 0,
        exchanges[i].call->StartContainer_0.container_id == exchanges[i].reply->ContainerCreated_0,
        i >= 1,
        exchanges[i - 1].call is CreateContainer,
{
    assert(exchange_ok(states, exchanges, i));
    assert(states[i].stage == Stage::SandboxReady);
    assert(i >= 1);
    assert(exchange_ok(states, exchanges, i - 1));
}

/// A pipeline makes each of its calls at one place only: after
/// `RunPodSandbox`, the first reply alone can be answered by
/// `CreateContainer`, the second alone by `StartContainer`, and the third
/// alone by the launch of the reconciler. So one pod gets at most one
/// sandbox and one container, and the container is started at most once.
pub proof fn lemma_calls_in_order(states: Seq<Pipeline>, exchanges: Seq<Exchange>, i: int)
    requires
        is_run(states, exchanges),
        0 <= i < exchanges.len(),
    ensures
        exchanges[i].call is CreateContainer ==> i == 0,
        exchanges[i].call is StartContainer ==> i == 1,
        exchanges[i].call is WatchStatus ==> i == 2,
{
    assert(exchange_ok(states, exchanges, i));
    if i >= 1 {
        assert(exchange_ok(states, exchanges, i - 1));
    }
    if i >= 2 {
        assert(exchange_ok(states, exchanges, i - 2));
    }
    if i >= 3 {
        assert(exchange_ok(states, exchanges, i - 3));
    }
}

/// The pipeline keeps its pod.
pub proof fn lemma_same_pod(states: Seq<Pipeline>, exchanges: Seq<Exchange>, i: int)
    requires
        is_run(states, exchanges),
        0 <= i < states.len(),
    ensures
        states[i].pod == states[0].pod,
    decreases i,
{
    if i > 0 {
        lemma_same_pod(states, exchanges, i - 1);
        assert(exchange_ok(states, exchanges, i - 1));
    }
}

/// One container-status entry of a pod status.
#[derive(Debug)]
pub struct ContainerStatus {
    pub name: String,
    pub container_id: String,
    pub image: String,
    pub ready: bool,
    pub started: bool,
    pub restart_count: i32,
}

/// The cluster-visible reflection of the runtime state of one pod.
#[derive(Debug)]
pub struct PodStatusSync {
    pub name: String,
    pub namespace: String,
    pub phase: String,
    pub container_statuses: Vec<ContainerStatus>,
}

/// The status of a pod as the cluster holds it.
#[derive(Debug)]
pub struct PodStatus {
    pub phase: String,
    pub container_statuses: Vec<ContainerStatus>,
}

pub struct ContainerStatusView {
    pub name: Seq<char>,
    pub container_id: Seq<char>,
    pub image: Seq<char>,
    pub ready: bool,
    pub started: bool,
    pub restart_count: int,
}

pub struct PodStatusView {
    pub phase: Seq<char>,
    pub container_statuses: Seq<ContainerStatusView>,
}

pub struct PodStatusSyncView {
    pub name: Seq<char>,
    pub namespace: Seq<char>,
    pub status: PodStatusView,
}

impl View for ContainerStatus {
    type V = ContainerStatusView;

    open spec fn view(&self) -> ContainerStatusView {
        ContainerStatusView {
            name: self.name@,
            container_id: self.container_id@,
            image: self.image@,
            ready: self.ready,
            started: self.started,
            restart_count: self.restart_count as int,
        }
    }
}

/// The views of a list of container statuses, in order.
pub open spec fn statuses_view(v: Seq<ContainerStatus>) -> Seq<ContainerStatusView> {
    Seq::new(v.len(), |i: int| v[i]@)
}

impl View for PodStatus {
    type V = PodStatusView;

    open spec fn view(&self) -> PodStatusView {
        PodStatusView {
            phase: self.phase@,
            container_statuses: statuses_view(self.container_statuses@),
        }
    }
}

impl View for PodStatusSync {
    type V = PodStatusSyncView;

    open spec fn view(&self) -> PodStatusSyncView {
        PodStatusSyncView {
            name: self.name@,
            namespace: self.namespace@,
            status: PodStatusView {
                phase: self.phase@,
                container_statuses: statuses_view(self.container_statuses@),
            },
        }
    }
}

/// The status update for the pod `namespace`/`name` whose container
/// `container` runs: phase `Running`, and one entry for that container,
/// ready and started, never restarted.
pub open spec fn running_sync(name: Seq<char>, namespace: Seq<char>, container: Container)
    -> PodStatusSyncView {
    PodStatusSyncView {
        name,
        namespace,
        status: PodStatusView {
            phase: "Running"@,
            container_statuses: seq![
                ContainerStatusView {
                    name: container.name@,
                    container_id: container.id@,
                    image: container.image@,
                    ready: true,
                    started: true,
                    restart_count: 0,
                },
            ],
        },
    }
}

/// Builds the status update that reports `container` as running in the pod
/// `ns`/`name`.
pub fn update_status(name: &String, ns: &String, container: &Container) -> (sync: PodStatusSync)
    ensures
        sync@ == running_sync(name@, ns@, *container),
{
    let mut container_statuses: Vec<ContainerStatus> = Vec::new();
    container_statuses.push(
        ContainerStatus {
            name: container.name.clone(),
            container_id: container.id.clone(),
            image: container.image.clone(),
            ready: true,
            started: true,
            restart_count: 0,
        },
    );
    let sync = PodStatusSync {
        name: name.clone(),
        namespace: ns.clone(),
        phase: String::from_str("Running"),
        container_statuses,
    };
    assert(sync@.status.container_statuses =~= running_sync(
        name@,
        ns@,
        *container,
    ).status.container_statuses);
    sync
}

/// A container is reported for a sandbox when it belongs to it and runs.
pub open spec fn reported(container: Container, sandbox: PodSandbox) -> bool {
    container.pod_sandbox_id@ == sandbox.id@ && container.state == CONTAINER_RUNNING
}

/// Every sandbox for which some container is reported carries metadata.
pub open spec fn listings_joinable(sandboxes: Seq<PodSandbox>, containers: Seq<Container>)
    -> bool {
    forall|i: int, j: int|
        0 <= i < containers.len() && 0 <= j < sandboxes.len() && #[trigger] reported(
            containers[i],
            sandboxes[j],
        ) ==> sandboxes[j].metadata is Some
}

/// Tells whether every sandbox for which some container is reported
/// carries metadata.
pub fn are_joinable(sandboxes: &Vec<PodSandbox>, containers: &Vec<Container>) -> (r: bool)
    ensures
        r == listings_joinable(sandboxes@, containers@),
{
    let mut i: usize = 0;
    while i < containers.len()
        invariant
            i <= containers.len(),
            listings_joinable(sandboxes@, containers@.take(i as int)),
        decreases containers.len() - i,
    {
        let mut j: usize = 0;
        while j < sandboxes.len()
            invariant
                j <= sandboxes.len(),
                i < containers.len(),
                listings_joinable(sandboxes@, containers@.take(i as int)),
                forall|k: int|
                    0 <= k < j && #[trigger] reported(containers@[i as int], sandboxes@[k])
                        ==> sandboxes@[k].metadata is Some,
            decreases sandboxes.len() - j,
        {
            if containers[i].pod_sandbox_id == sandboxes[j].id && containers[i].state
                == CONTAINER_RUNNING && sandboxes[j].metadata.is_none() {
                assert(reported(containers@[i as int], sandboxes@[j as int]));
                return false;
            }
            j += 1;
        }
        assert forall|a: int, b: int|
            0 <= a < containers@.take(i + 1).len() && 0 <= b < sandboxes@.len()
                && #[trigger] reported(containers@.take(i + 1)[a], sandboxes@[b])
                implies sandboxes@[b].metadata is Some by {
            if a < i {
                assert(containers@.take(i as int)[a] == containers@.take(i + 1)[a]);
                assert(reported(containers@.take(i as int)[a], sandboxes@[b]));
            }
        }
        i += 1;
    }
    assert(containers@.take(i as int) =~= containers@);
    true
}

/// The updates that one container gives rise to: one for each sandbox it is
/// reported for, in the order of the sandbox listing.
pub open spec fn container_syncs(container: Container, sandboxes: Seq<PodSandbox>) -> Seq<
    PodStatusSyncView,
>
    decreases sandboxes.len(),
{
    if sandboxes.len() == 0 {
        Seq::empty()
    } else {
        let before = container_syncs(container, sandboxes.drop_last());
        let sandbox = sandboxes.last();
        if reported(container, sandbox) {
            before.push(
                running_sync(sandbox.metadata->0.name@, sandbox.metadata->0.namespace@, container),
            )
        } else {
            before
        }
    }
}

/// The updates of one poll: those of each container, in the order of the
/// container listing.
pub open spec fn poll_syncs(sandboxes: Seq<PodSandbox>, containers: Seq<Container>) -> Seq<
    PodStatusSyncView,
>
    decreases containers.len(),
{
    if containers.len() == 0 {
        Seq::empty()
    } else {
        poll_syncs(sandboxes, containers.drop_last()) + container_syncs(
            containers.last(),
            sandboxes,
        )
    }
}

/// The views of a list of updates, in order.
pub open spec fn syncs_view(v: Seq<PodStatusSync>) -> Seq<PodStatusSyncView> {
    Seq::new(v.len(), |i: int| v[i]@)
}

/// Joins the two listings of one poll and returns the status updates to
/// apply: one for every pair of a running container and its owning sandbox.
/// Containers in any other state give rise to none.
pub fn fetch_status_info(sandboxes: &Vec<PodSandbox>, containers: &Vec<Container>) -> (syncs: Vec<
    PodStatusSync,
>)
    requires
        listings_joinable(sandboxes@, containers@),
    ensures
        syncs_view(syncs@) == poll_syncs(sandboxes@, containers@),
{
    let mut syncs: Vec<PodStatusSync> = Vec::new();
    let mut i: usize = 0;
    assert(syncs_view(syncs@) =~= poll_syncs(sandboxes@, containers@.take(0)));
    while i < containers.len()
        invariant
            i <= containers.len(),
            listings_joinable(sandboxes@, containers@),
            syncs_view(syncs@) == poll_syncs(sandboxes@, containers@.take(i as int)),
        decreases containers.len() - i,
    {
        let container = &containers[i];
        let ghost done = syncs_view(syncs@);
        let mut j: usize = 0;
        assert(syncs_view(syncs@) =~= done + container_syncs(*container, sandboxes@.take(0)));
        while j < sandboxes.len()
            invariant
                j <= sandboxes.len(),
                i < containers.len(),
                container == &containers[i as int],
                listings_joinable(sandboxes@, containers@),
                syncs_view(syncs@) == done + container_syncs(*container, sandboxes@.take(j as int)),
            decreases sandboxes.len() - j,
        {
            let sandbox = &sandboxes[j];
            let ghost row = container_syncs(*container, sandboxes@.take(j as int));
            assert(sandboxes@.take(j + 1).drop_last() =~= sandboxes@.take(j as int));
            assert(sandboxes@.take(j + 1).last() == sandboxes@[j as int]);
            if container.pod_sandbox_id == sandbox.id && container.state == CONTAINER_RUNNING {
                assert(reported(containers@[i as int], sandboxes@[j as int]));
                let metadata = sandbox.metadata.as_ref().unwrap();
                let sync = update_status(&metadata.name, &metadata.namespace, container);
                let ghost earlier = syncs@;
                let ghost added = sync@;
                syncs.push(sync);
                assert(syncs_view(syncs@) =~= syncs_view(earlier).push(added));
                assert((done + row).push(added) =~= done + row.push(added));
            }
            j += 1;
        }
        assert(sandboxes@.take(j as int) =~= sandboxes@);
        assert(containers@.take(i + 1).drop_last() =~= containers@.take(i as int));
        assert(containers@.take(i + 1).last() == containers@[i as int]);
        i += 1;
    }
    assert(containers@.take(i as int) =~= containers@);
    syncs
}

/// What came back to the reconciler: the two listings of the runtime, the
/// failure of a listing, the outcome of a status update, or that the
/// interval has run out.
#[derive(Debug)]
pub enum PollReply {
    Listed(Vec<PodSandbox>, Vec<Container>),
    ListingFailed,
    Patched,
    PatchFailed,
    Tick,
}

/// What the driver of the reconciler does next.
#[derive(Debug)]
pub enum PollCall {
    /// List all sandboxes and all containers of the runtime.
    List,
    /// Apply this status update to the cluster.
    Patch(PodStatusSync),
    /// Wait this many seconds, then report `Tick`.
    Sleep(u64),
}

/// The status reconciler: the updates of the current poll that are still to
/// be sent. It has no terminal state.
#[derive(Debug)]
pub struct Reconciler {
    pub pending: Vec<PodStatusSync>,
}

impl Reconciler {
    /// The updates that are to be sent once `reply` has come in: those of a
    /// fresh pair of listings; after an update that succeeded, those that
    /// were pending; none after a failed listing or a failed update, either
    /// of which abandons the poll, and none when the interval has run out.
    pub open spec fn queue_after(pre: Reconciler, reply: PollReply) -> Seq<PodStatusSyncView> {
        match reply {
            PollReply::Listed(sandboxes, containers) => poll_syncs(sandboxes@, containers@),
            PollReply::Patched => syncs_view(pre.pending@),
            PollReply::PatchFailed => Seq::empty(),
            PollReply::ListingFailed => Seq::empty(),
            PollReply::Tick => Seq::empty(),
        }
    }

    /// Whether `call` is the answer of a reconciler in state `pre` to
    /// `reply`, `post` being the reconciler afterwards: a new listing when
    /// the interval has run out; else the first of the updates to be sent,
    /// the others staying pending; and the wait for the next poll where none
    /// is left. After a failure nothing is left: what was pending is
    /// dropped, and the next poll starts from fresh listings.
    pub open spec fn answers(pre: Reconciler, reply: PollReply, post: Reconciler, call: PollCall)
        -> bool {
        let queue = Self::queue_after(pre, reply);
        if reply is Tick {
            call is List && syncs_view(post.pending@) == queue
        } else if queue.len() == 0 {
            call == PollCall::Sleep(STATUS_POLL_SECONDS) && syncs_view(post.pending@) == queue
        } else {
            call matches PollCall::Patch(sync) && sync@ == queue[0] && syncs_view(post.pending@)
                == queue.skip(1)
        }
    }

    /// A reconciler with nothing to send; it begins its first poll on
    /// `Tick`.
    pub fn new() -> (r: Reconciler)
        ensures
            r.pending@.len() == 0,
    {
        Reconciler { pending: Vec::new() }
    }

    /// Answers one reply with the next call.
    ///
    /// A failed listing and a failed update abandon the poll: the updates
    /// that were pending are dropped and the reconciler waits. In either
    /// case it goes on, and polls again after the interval.
    pub fn advance(&mut self, reply: PollReply) -> (call: PollCall)
        requires
            reply matches PollReply::Listed(sandboxes, containers) ==> listings_joinable(
                sandboxes@,
                containers@,
            ),
        ensures
            Self::answers(*old(self), reply, *final(self), call),
    {
        match reply {
            PollReply::Tick => {
                self.pending = Vec::new();
                assert(syncs_view(self.pending@) =~= Seq::empty());
                return PollCall::List;
            },
            PollReply::Listed(sandboxes, containers) => {
                self.pending = fetch_status_info(&sandboxes, &containers);
            },
            PollReply::ListingFailed => {
                self.pending = Vec::new();
                assert(syncs_view(self.pending@) =~= Seq::empty());
            },
            PollReply::Patched => {},
            PollReply::PatchFailed => {
                self.pending = Vec::new();
                assert(syncs_view(self.pending@) =~= Seq::empty());
            },
        }
        if self.pending.len() == 0 {
            PollCall::Sleep(STATUS_POLL_SECONDS)
        } else {
            let ghost queue = syncs_view(self.pending@);
            let sync = self.pending.remove(0);
            assert(syncs_view(self.pending@) =~= queue.skip(1));
            PollCall::Patch(sync)
        }
    }
}

/// One exchange of the reconciler: the reply received and the call that
/// answered it.
pub struct PollExchange {
    pub reply: PollReply,
    pub call: PollCall,
}

/// A run of the reconciler: its states and the exchanges that lead from
/// each to the next.
pub open spec fn is_poll_run(states: Seq<Reconciler>, exchanges: Seq<PollExchange>) -> bool {
    &&& states.len() == exchanges.len() + 1
    &&& forall|i: int|
        0 <= i < exchanges.len() ==> #[trigger] Reconciler::answers(
            states[i],
            exchanges[i].reply,
            states[i + 1],
            exchanges[i].call,
        )
}

/// The exchanges `i + 1` to `i + k` all report an update that succeeded.
pub open spec fn updates_follow(exchanges: Seq<PollExchange>, i: int, k: int) -> bool {
    forall|m: int| i < m <= i + k ==> (#[trigger] exchanges[m]).reply is Patched
}

/// After a pair of listings, and as long as its updates succeed, the
/// reconciler sends the updates of that poll one by one, in their order,
/// and then waits for the next poll: the call that answers the `k`-th
/// success after the listings is the `k`-th update, or the wait where the
/// poll has exactly `k` updates.
pub proof fn lemma_poll_sends_each_update(
    states: Seq<Reconciler>,
    exchanges: Seq<PollExchange>,
    i: int,
    k: int,
)
    requires
        is_poll_run(states, exchanges),
        0 <= i,
        0 <= k,
        i + k < exchanges.len(),
        exchanges[i].reply is Listed,
        updates_follow(exchanges, i, k),
        k <= Reconciler::queue_after(states[i], exchanges[i].reply).len(),
    ensures
        ({
            let queue = Reconciler::queue_after(states[i], exchanges[i].reply);
            &&& k < queue.len() ==> exchanges[i + k].call is Patch && exchanges[i
                + k].call->Patch_0@ == queue[k] && syncs_view(states[i + k + 1].pending@)
                == queue.skip(k + 1)
            &&& k == queue.len() ==> exchanges[i + k].call == PollCall::Sleep(STATUS_POLL_SECONDS)
        }),
    decreases k,
{
    let queue = Reconciler::queue_after(states[i], exchanges[i].reply);
    assert(Reconciler::answers(
        states[i + k],
        exchanges[i + k].reply,
        states[i + k + 1],
        exchanges[i + k].call,
    ));
    if k > 0 {
        assert(updates_follow(exchanges, i, k - 1));
        lemma_poll_sends_each_update(states, exchanges, i, k - 1);
        assert(exchanges[i + k].reply is Patched);
        assert(syncs_view(states[i + k].pending@) == queue.skip(k));
        if k < queue.len() {
            assert(queue.skip(k)[0] == queue[k]);
            assert(queue.skip(k).skip(1) =~= queue.skip(k + 1));
        }
    } else {
        assert(queue.skip(0) =~= queue);
    }
}

/// A failure abandons the poll, whatever was pending: the failure of a
/// listing or of an update is answered by the wait for the next poll, and
/// nothing stays pending.
pub proof fn lemma_failure_abandons_poll(
    pre: Reconciler,
    reply: PollReply,
    post: Reconciler,
    call: PollCall,
)
    requires
        Reconciler::answers(pre, reply, post, call),
        reply is ListingFailed || reply is PatchFailed,
    ensures
        call == PollCall::Sleep(STATUS_POLL_SECONDS),
        post.pending@.len() == 0,
{
    assert(syncs_view(post.pending@).len() == 0);
}

/// The pods of a cluster with their statuses, keyed by namespace and name.
pub type ClusterPods = Map<(Seq<char>, Seq<char>), PodStatusView>;

/// The cluster after `sync` was applied: the status of the target pod is
/// overwritten, every other pod is untouched.
pub open spec fn cluster_after(cluster: ClusterPods, sync: PodStatusSyncView) -> ClusterPods {
    cluster.insert((sync.namespace, sync.name), sync.status)
}

impl PodStatus {
    /// Overwrites the phase and the container statuses with those of `sync`;
    /// nothing of the earlier status is kept.
    pub fn apply(&mut self, sync: &PodStatusSync)
        ensures
            final(self)@ == sync@.status,
    {
        let mut container_statuses: Vec<ContainerStatus> = Vec::new();
        let mut i: usize = 0;
        while i < sync.container_statuses.len()
            invariant
                i <= sync.container_statuses.len(),
                statuses_view(container_statuses@) == statuses_view(
                    sync.container_statuses@.take(i as int),
                ),
            decreases sync.container_statuses.len() - i,
        {
            let entry = &sync.container_statuses[i];
            let ghost earlier = container_statuses@;
            container_statuses.push(
                ContainerStatus {
                    name: entry.name.clone(),
                    container_id: entry.container_id.clone(),
                    image: entry.image.clone(),
                    ready: entry.ready,
                    started: entry.started,
                    restart_count: entry.restart_count,
                },
            );
            assert(statuses_view(container_statuses@) =~= statuses_view(earlier).push(entry@));
            assert(statuses_view(sync.container_statuses@.take(i + 1)) =~= statuses_view(
                sync.container_statuses@.take(i as int),
            ).push(entry@));
            i += 1;
        }
        assert(sync.container_statuses@.take(i as int) =~= sync.container_statuses@);
        self.phase = sync.phase.clone();
        self.container_statuses = container_statuses;
    }
}

/// Applying a status update twice leaves a pod status as applying it once
/// does: the update overwrites, it does not add.
pub proof fn lemma_apply_idempotent(cluster: ClusterPods, sync: PodStatusSyncView)
    ensures
        cluster_after(cluster_after(cluster, sync), sync) == cluster_after(cluster, sync),
        cluster_after(cluster, sync)[(sync.namespace, sync.name)] == sync.status,
        forall|k: (Seq<char>, Seq<char>)|
            k != (sync.namespace, sync.name) && cluster.contains_key(k) ==> cluster_after(
                cluster,
                sync,
            ).contains_key(k) && #[trigger] cluster_after(cluster, sync)[k] == cluster[k],
{
    assert(cluster_after(cluster_after(cluster, sync), sync) =~= cluster_after(cluster, sync));
}

} // verus!
