//! Node registration and lease renewal.
//!
//! The agent is a state machine: each reply of the cluster API is answered
//! by the next call to make. The node's UID is resolved before any lease
//! call is made, and is never replaced afterwards.

use vstd::prelude::*;
use vstd::string::*;
use crate::nodemod::node::{default_node, KubeNode, Node, NodeView};

verus! {

/// Seconds for which a lease is valid without renewal.
pub const LEASE_DURATION_SECONDS: i32 = 300;

/// Seconds between two renewals.
pub const RENEW_INTERVAL_SECONDS: u64 = 20;

/// A point in time: microseconds since the Unix epoch, UTC, together with
/// the text that stands for it in a resource.
#[derive(Debug)]
pub struct Timestamp {
    pub micros: i64,
    pub text: String,
}

/// The RFC 3339 text, with six digits of fraction and `Z` for UTC, of the
/// time that lies `micros` microseconds after the Unix epoch; `None` where
/// the calendar does not reach that far.
pub uninterp spec fn rfc3339_text(micros: int) -> Option<Seq<char>>;

/// `chrono::DateTime::<Utc>::from_timestamp_micros`, then
/// `DateTime::to_rfc3339_opts` with `SecondsFormat::Micros` and `Z`: the
/// contract names the text, or its absence, that they give for the number.
#[verifier::external_body]
fn format_rfc3339(micros: i64) -> (r: Option<String>)
    ensures
        r is Some <==> rfc3339_text(micros as int) is Some,
        r is Some ==> rfc3339_text(micros as int) == Some(r->0@),
{
    chrono::DateTime::<chrono::Utc>::from_timestamp_micros(micros).map(
        |t| t.to_rfc3339_opts(chrono::SecondsFormat::Micros, true),
    )
}

impl Timestamp {
    /// The text is the one of the time.
    pub open spec fn wf(&self) -> bool {
        rfc3339_text(self.micros as int) == Some(self.text@)
    }

    /// The time `micros` microseconds after the Unix epoch, with its text;
    /// `None` where the calendar does not reach that far.
    pub fn from_micros(micros: i64) -> (r: Option<Timestamp>)
        ensures
            r is Some <==> rfc3339_text(micros as int) is Some,
            r matches Some(t) ==> t.micros == micros && t.wf(),
    {
        match format_rfc3339(micros) {
            Some(text) => Some(Timestamp { micros, text }),
            None => None,
        }
    }

    /// A copy with equal fields.
    pub fn duplicate(&self) -> (r: Timestamp)
        ensures
            r == *self,
    {
        Timestamp { micros: self.micros, text: self.text.clone() }
    }
}

/// Reference from a lease to the node that owns it.
#[derive(Debug)]
pub struct OwnerReference {
    pub api_version: String,
    pub kind: String,
    pub name: String,
    pub uid: String,
}

#[derive(Debug)]
pub struct LeaseSpec {
    pub holder_identity: String,
    pub acquire_time: Timestamp,
    pub renew_time: Timestamp,
    pub lease_duration_seconds: i32,
}

/// A lease as it is created, in the namespace of the node leases.
#[derive(Debug)]
pub struct LeaseDefinition {
    pub api_version: String,
    pub kind: String,
    pub namespace: String,
    pub name: String,
    pub owner: OwnerReference,
    pub spec: LeaseSpec,
}

/// The partial update of one renewal: only the renew time is named, so
/// every other field of the lease is left as it is.
#[derive(Debug)]
pub struct LeaseRenewal {
    pub namespace: String,
    pub name: String,
    pub renew_time: Timestamp,
}

/// The partial update of the node's status that reports it ready.
#[derive(Debug)]
pub struct ReadyCondition {
    pub node_name: String,
    pub last_heartbeat_time: Timestamp,
    pub message: String,
    pub reason: String,
    pub status: String,
    pub type_: String,
}

/// The lease spec of a node at the time `now`: held by the node, acquired
/// and renewed at `now`.
pub open spec fn lease_spec_of(node_name: String, now: Timestamp) -> LeaseSpec {
    LeaseSpec {
        holder_identity: node_name,
        acquire_time: now,
        renew_time: now,
        lease_duration_seconds: LEASE_DURATION_SECONDS,
    }
}

/// The namespace in which the leases of nodes live.
pub open spec fn lease_namespace() -> Seq<char> {
    "kube-node-lease"@
}

/// `lease` is the lease of a node at the time `now`: a lease of the
/// coordination API in the namespace of the node leases, named after the
/// node and owned by the node resource with the UID `node_uid`.
pub open spec fn is_lease_of(
    lease: LeaseDefinition,
    node_uid: String,
    node_name: String,
    now: Timestamp,
) -> bool {
    &&& lease.api_version@ == "coordination.k8s.io/v1"@
    &&& lease.kind@ == "Lease"@
    &&& lease.namespace@ == lease_namespace()
    &&& lease.name == node_name
    &&& lease.owner.api_version@ == "v1"@
    &&& lease.owner.kind@ == "Node"@
    &&& lease.owner.name == node_name
    &&& lease.owner.uid == node_uid
    &&& lease.spec == lease_spec_of(node_name, now)
}

/// `renewal` renews the lease of a node with the renew time `renew_time`.
pub open spec fn is_renewal_of(renewal: LeaseRenewal, node_name: String, renew_time: Timestamp)
    -> bool {
    &&& renewal.namespace@ == lease_namespace()
    &&& renewal.name == node_name
    &&& renewal.renew_time == renew_time
}

/// Builds the lease spec of a node at the time `now`.
pub fn lease_spec_definition(node_name: &String, now: &Timestamp) -> (spec: LeaseSpec)
    ensures
        spec == lease_spec_of(*node_name, *now),
{
    LeaseSpec {
        holder_identity: node_name.clone(),
        acquire_time: now.duplicate(),
        renew_time: now.duplicate(),
        lease_duration_seconds: LEASE_DURATION_SECONDS,
    }
}

/// Builds the lease of a node at the time `now`.
pub fn lease_definition(node_uid: &String, node_name: &String, now: &Timestamp) -> (lease:
    LeaseDefinition)
    ensures
        is_lease_of(lease, *node_uid, *node_name, *now),
{
    LeaseDefinition {
        api_version: String::from_str("coordination.k8s.io/v1"),
        kind: String::from_str("Lease"),
        namespace: String::from_str("kube-node-lease"),
        name: node_name.clone(),
        owner: OwnerReference {
            api_version: String::from_str("v1"),
            kind: String::from_str("Node"),
            name: node_name.clone(),
            uid: node_uid.clone(),
        },
        spec: lease_spec_definition(node_name, now),
    }
}

/// Builds the renewal of a node's lease at the time `now`.
pub fn update_lease(node_name: &String, now: Timestamp) -> (renewal: LeaseRenewal)
    ensures
        is_renewal_of(renewal, *node_name, now),
{
    LeaseRenewal {
        namespace: String::from_str("kube-node-lease"),
        name: node_name.clone(),
        renew_time: now,
    }
}

/// `c` reports the node `node_name` ready with a heartbeat at `now`.
pub open spec fn is_ready_condition(c: ReadyCondition, node_name: String, now: Timestamp) -> bool {
    &&& c.node_name == node_name
    &&& c.last_heartbeat_time == now
    &&& c.message@ == "kubelet is posting ready status"@
    &&& c.reason@ == "KubeletReady"@
    &&& c.status@ == "True"@
    &&& c.type_@ == "Ready"@
}

/// Builds the status update that reports a node ready at the time `now`.
pub fn update_status(node_name: &String, now: Timestamp) -> (c: ReadyCondition)
    ensures
        is_ready_condition(c, *node_name, now),
{
    ReadyCondition {
        node_name: node_name.clone(),
        last_heartbeat_time: now,
        message: String::from_str("kubelet is posting ready status"),
        reason: String::from_str("KubeletReady"),
        status: String::from_str("True"),
        type_: String::from_str("Ready"),
    }
}

/// The registration of a node named `name`: the default definition with
/// that name, the annotations of a node that manages its own lease and
/// leaves volume attachment to the controller, a host-name label, a
/// worker-role label, and four CPUs.
pub open spec fn registration_of(name: Seq<char>) -> NodeView {
    NodeView {
        name,
        annotations: Map::<Seq<char>, Seq<char>>::empty().insert(
            "node.alpha.kubernetes.io/ttl"@,
            "0"@,
        ).insert("volumes.kubernetes.io/controller-managed-attach-detach"@, "true"@),
        labels: Map::<Seq<char>, Seq<char>>::empty().insert("kubernetes.io/hostname"@, name).insert(
            "node-role.kubernetes.io/worker"@,
            ""@,
        ),
        capacity: Map::<Seq<char>, Seq<char>>::empty().insert("cpu"@, "4"@),
        ..default_node()
    }
}

/// Builds the node resource to create for a host that is not registered.
pub fn create(node_name: &String) -> (node: KubeNode)
    ensures
        node.wf(),
        node@ == registration_of(node_name@),
{
    let mut builder = Node::builder();
    builder.set_name(node_name.as_str());
    builder.add_annotation("node.alpha.kubernetes.io/ttl", "0");
    builder.add_annotation("volumes.kubernetes.io/controller-managed-attach-detach", "true");
    builder.add_label("kubernetes.io/hostname", node_name.as_str());
    builder.add_label("node-role.kubernetes.io/worker", "");
    builder.add_capacity("cpu", "4");
    builder.build().into_inner()
}

/// Where the agent stands.
#[derive(Clone, Copy, Debug, PartialEq, Eq, Structural)]
pub enum Phase {
    /// Not started.
    Idle,
    /// The node was looked up by name; the answer is awaited.
    LookingUp,
    /// The node was missing and its creation was sent.
    Creating,
    /// The UID is known and the creation of the lease was sent.
    CreatingLease,
    /// A renewal of the lease was sent.
    PatchingLease,
    /// The ready condition was sent.
    PatchingStatus,
    /// The interval between two renewals runs.
    Sleeping,
    /// Registration failed. Terminal.
    Stopped,
}

/// What the cluster API answered, or that the interval has run out.
#[derive(Debug)]
pub enum ApiReply {
    /// The node exists and has this UID.
    NodeFound(String),
    /// The lookup was answered with not-found.
    NodeMissing,
    /// The node was created and was given this UID.
    NodeCreated(String),
    /// The call succeeded.
    Done,
    /// The object to create exists already.
    Conflict,
    /// The call failed for any other reason.
    Failed,
    /// The interval has run out.
    Tick,
}

/// What the driver does next.
#[derive(Debug)]
pub enum ApiCall {
    GetNode(String),
    CreateNode(KubeNode),
    CreateLease(LeaseDefinition),
    PatchLease(LeaseRenewal),
    PatchNodeStatus(ReadyCondition),
    /// Wait this many seconds, then report `Tick`.
    Sleep(u64),
    /// Registration failed: make no further call.
    Stop,
    /// Nothing to do: the agent was started before.
    Nothing,
}

/// The node agent of one host.
#[derive(Debug)]
pub struct Kubelet {
    pub node_name: String,
    pub phase: Phase,
    /// The UID of the node resource, once resolved.
    pub node_uid: Option<String>,
    /// The renew time that was sent last, with the lease or a renewal.
    pub renew_sent: Option<Timestamp>,
    /// The renew time, in microseconds, of the last renewal that succeeded.
    pub last_renew: Option<i64>,
}

/// The renew time to send at the time `now`, after `sent` was sent last:
/// the current time, and the time sent last where the clock shows an earlier
/// one, so that a renew time never goes back.
pub open spec fn renew_time_at(sent: Option<Timestamp>, now: Timestamp) -> Timestamp {
    match sent {
        Some(earlier) => if now.micros < earlier.micros {
            earlier
        } else {
            now
        },
        None => now,
    }
}

/// The microseconds of a renew time, if there is one.
pub open spec fn micros_of(t: Option<Timestamp>) -> Option<i64> {
    match t {
        Some(time) => Some(time.micros),
        None => None,
    }
}

/// `after` is no earlier than `before`: once a renew time was sent, there
/// is one, and it is not below the earlier one.
pub open spec fn never_earlier(before: Option<i64>, after: Option<i64>) -> bool {
    before is Some ==> after is Some && before->0 <= after->0
}

/// Picks the renew time to send.
fn later_of(sent: &Option<Timestamp>, now: Timestamp) -> (t: Timestamp)
    ensures
        t == renew_time_at(*sent, now),
{
    match sent {
        Some(earlier) => if now.micros < earlier.micros {
            earlier.duplicate()
        } else {
            now
        },
        None => now,
    }
}

impl Phase {
    /// The phases in which the lease is created or renewed.
    pub open spec fn renewing(self) -> bool {
        self == Phase::CreatingLease || self == Phase::PatchingLease || self
            == Phase::PatchingStatus || self == Phase::Sleeping
    }
}

impl Kubelet {
    /// The lease is created and renewed only with a resolved UID, and no
    /// renewal has succeeded with a later renew time than was sent last.
    pub open spec fn wf(&self) -> bool {
        &&& self.phase.renewing() ==> self.node_uid is Some
        &&& self.phase == Phase::PatchingLease ==> self.renew_sent is Some
        &&& never_earlier(self.last_renew, micros_of(self.renew_sent))
    }

    /// Tells whether the agent is well-formed.
    pub fn is_wf(&self) -> (r: bool)
        ensures
            r == self.wf(),
    {
        let ordered = match (&self.last_renew, &self.renew_sent) {
            (Some(last), Some(sent)) => *last <= sent.micros,
            (Some(_), None) => false,
            (None, _) => true,
        };
        ordered && match self.phase {
            Phase::CreatingLease | Phase::PatchingStatus | Phase::Sleeping => self.node_uid.is_some(),
            Phase::PatchingLease => self.node_uid.is_some() && self.renew_sent.is_some(),
            _ => true,
        }
    }

    /// The phase that follows `phase` on `reply`.
    pub open spec fn next_phase(phase: Phase, reply: ApiReply) -> Phase {
        match phase {
            Phase::Idle => Phase::Stopped,
            Phase::LookingUp => match reply {
                ApiReply::NodeFound(_) => Phase::CreatingLease,
                ApiReply::NodeMissing => Phase::Creating,
                _ => Phase::Stopped,
            },
            Phase::Creating => match reply {
                ApiReply::NodeCreated(_) => Phase::CreatingLease,
                _ => Phase::Stopped,
            },
            Phase::CreatingLease => Phase::PatchingLease,
            Phase::PatchingLease => match reply {
                ApiReply::Done => Phase::PatchingStatus,
                _ => Phase::Sleeping,
            },
            Phase::PatchingStatus => Phase::Sleeping,
            Phase::Sleeping => Phase::PatchingLease,
            Phase::Stopped => Phase::Stopped,
        }
    }

    /// Whether `call` is the answer of an agent in state `pre` to `reply`
    /// received at the time `now`, `post` being the agent afterwards.
    pub open spec fn answers(
        pre: Kubelet,
        reply: ApiReply,
        now: Timestamp,
        post: Kubelet,
        call: ApiCall,
    ) -> bool {
        let phase = Self::next_phase(pre.phase, reply);
        let renew_time = renew_time_at(pre.renew_sent, now);
        &&& post.phase == phase
        &&& post.node_name == pre.node_name
        &&& never_earlier(micros_of(pre.renew_sent), micros_of(post.renew_sent))
        &&& never_earlier(pre.last_renew, post.last_renew)
        &&& match phase {
            Phase::Idle => false,
            Phase::LookingUp => false,
            Phase::Creating => {
                &&& call matches ApiCall::CreateNode(node)
                &&& node.wf()
                &&& node@ == registration_of(pre.node_name@)
                &&& post.node_uid == pre.node_uid
                &&& post.renew_sent == pre.renew_sent
                &&& post.last_renew == pre.last_renew
            },
            Phase::CreatingLease => {
                &&& (reply matches ApiReply::NodeFound(uid) && post.node_uid == Some(uid))
                    || (reply matches ApiReply::NodeCreated(uid) && post.node_uid == Some(uid))
                &&& call matches ApiCall::CreateLease(lease)
                &&& is_lease_of(lease, post.node_uid->0, pre.node_name, renew_time)
                &&& post.renew_sent == Some(renew_time)
                &&& post.last_renew == pre.last_renew
            },
            Phase::PatchingLease => {
                &&& call matches ApiCall::PatchLease(renewal)
                &&& is_renewal_of(renewal, pre.node_name, renew_time)
                &&& post.node_uid == pre.node_uid
                &&& post.renew_sent == Some(renew_time)
                &&& post.last_renew == pre.last_renew
            },
            Phase::PatchingStatus => {
                &&& call matches ApiCall::PatchNodeStatus(c)
                &&& is_ready_condition(c, pre.node_name, now)
                &&& post.node_uid == pre.node_uid
                &&& post.renew_sent == pre.renew_sent
                &&& post.last_renew == micros_of(pre.renew_sent)
            },
            Phase::Sleeping => {
                &&& call == ApiCall::Sleep(RENEW_INTERVAL_SECONDS)
                &&& post.node_uid == pre.node_uid
                &&& post.renew_sent == pre.renew_sent
                &&& post.last_renew == pre.last_renew
            },
            Phase::Stopped => {
                &&& call == ApiCall::Stop
                &&& post.node_uid == pre.node_uid
                &&& post.renew_sent == pre.renew_sent
                &&& post.last_renew == pre.last_renew
            },
        }
    }

    /// An agent for the host `node_name`, not started.
    pub fn new(node_name: String) -> (k: Kubelet)
        ensures
            k.wf(),
            k.node_name == node_name,
            k.phase == Phase::Idle,
            k.node_uid is None,
            k.renew_sent is None,
            k.last_renew is None,
    {
        Kubelet { node_name, phase: Phase::Idle, node_uid: None, renew_sent: None, last_renew: None }
    }

    /// Starts the agent: the node is looked up by name. An agent that was
    /// started before is left as it is.
    pub fn start(&mut self) -> (call: ApiCall)
        ensures
            old(self).phase == Phase::Idle ==> call == ApiCall::GetNode(old(self).node_name)
                && *final(self) == (Kubelet { phase: Phase::LookingUp, ..*old(self) }),
            old(self).phase != Phase::Idle ==> call == ApiCall::Nothing && *final(self) == *old(
                self,
            ),
    {
        match self.phase {
            Phase::Idle => {
                self.phase = Phase::LookingUp;
                ApiCall::GetNode(self.node_name.clone())
            },
            _ => ApiCall::Nothing,
        }
    }

    /// The UID of the node resource, once it is resolved.
    pub fn uid(&self) -> (uid: Option<String>)
        ensures
            uid == self.node_uid,
    {
        match &self.node_uid {
            Some(u) => Some(u.clone()),
            None => None,
        }
    }

    /// Answers one reply, received at the time `now`, with the next call.
    ///
    /// A lookup that finds the node, and a creation that succeeds, resolve
    /// the UID and lead to the creation of the lease; a missing node leads to
    /// its creation; any other answer to either ends the agent. From the
    /// creation of the lease on, no reply ends the agent: the lease is
    /// renewed with the renew time `now`, or with the renew time sent last
    /// where `now` lies before it, the node is reported ready, and the
    /// agent sleeps, in turn and without end. A renewal that fails abandons
    /// its cycle: the node is not reported ready, and the agent sleeps until
    /// the next one.
    pub fn update(&mut self, reply: ApiReply, now: Timestamp) -> (call: ApiCall)
        requires
            old(self).wf(),
        ensures
            final(self).wf(),
            Self::answers(*old(self), reply, now, *final(self), call),
    {
        match self.phase {
            Phase::Idle => {
                self.phase = Phase::Stopped;
                ApiCall::Stop
            },
            Phase::LookingUp => match reply {
                ApiReply::NodeFound(uid) => self.resolved(uid, now),
                ApiReply::NodeMissing => {
                    self.phase = Phase::Creating;
                    ApiCall::CreateNode(create(&self.node_name))
                },
                _ => {
                    self.phase = Phase::Stopped;
                    ApiCall::Stop
                },
            },
            Phase::Creating => match reply {
                ApiReply::NodeCreated(uid) => self.resolved(uid, now),
                _ => {
                    self.phase = Phase::Stopped;
                    ApiCall::Stop
                },
            },
            Phase::CreatingLease | Phase::Sleeping => {
                let renew_time = later_of(&self.renew_sent, now);
                self.phase = Phase::PatchingLease;
                self.renew_sent = Some(renew_time.duplicate());
                ApiCall::PatchLease(update_lease(&self.node_name, renew_time))
            },
            Phase::PatchingLease => match reply {
                ApiReply::Done => {
                    self.last_renew = match &self.renew_sent {
                        Some(sent) => Some(sent.micros),
                        None => None,
                    };
                    self.phase = Phase::PatchingStatus;
                    ApiCall::PatchNodeStatus(update_status(&self.node_name, now))
                },
                _ => {
                    self.phase = Phase::Sleeping;
                    ApiCall::Sleep(RENEW_INTERVAL_SECONDS)
                },
            },
            Phase::PatchingStatus => {
                self.phase = Phase::Sleeping;
                ApiCall::Sleep(RENEW_INTERVAL_SECONDS)
            },
            Phase::Stopped => ApiCall::Stop,
        }
    }

    /// Answers one reply with the next call at the current time: the result
    /// is what `step_at` gives for the number of microseconds that the clock
    /// shows, whatever that number is. Where the calendar does not reach
    /// that far, the agent is left as it is and no call is returned.
    pub fn step(&mut self, reply: ApiReply) -> (call: Option<ApiCall>)
        requires
            old(self).wf(),
        ensures
            final(self).wf(),
            exists|micros: i64| Self::steps_at(*old(self), reply, micros, *final(self), call),
    {
        let micros = utc_now_micros();
        let call = self.step_at(reply, micros);
        assert(Self::steps_at(*old(self), reply, micros, *self, call));
        call
    }

    /// Whether `call` is what an agent in state `pre` returns for `reply` at
    /// the time `micros` microseconds after the Unix epoch, `post` being the
    /// agent afterwards: where the time has a text, the answer of `update`
    /// for the timestamp of that time; where it has none, no call, and the
    /// agent unchanged.
    pub open spec fn steps_at(
        pre: Kubelet,
        reply: ApiReply,
        micros: i64,
        post: Kubelet,
        call: Option<ApiCall>,
    ) -> bool {
        match call {
            Some(c) => exists|now: Timestamp|
                now.micros == micros && now.wf() && #[trigger] Self::answers(
                    pre,
                    reply,
                    now,
                    post,
                    c,
                ),
            None => rfc3339_text(micros as int) is None && post == pre,
        }
    }

    /// Answers one reply, received `micros` microseconds after the Unix
    /// epoch, with the next call, as `update` does for the timestamp of that
    /// time. A time beyond the calendar leaves the agent as it is and gives
    /// no call.
    pub fn step_at(&mut self, reply: ApiReply, micros: i64) -> (call: Option<ApiCall>)
        requires
            old(self).wf(),
        ensures
            final(self).wf(),
            Self::steps_at(*old(self), reply, micros, *final(self), call),
    {
        match Timestamp::from_micros(micros) {
            Some(now) => {
                let call = self.update(reply, now);
                assert(now.micros == micros && now.wf() && Self::answers(
                    *old(self),
                    reply,
                    now,
                    *self,
                    call,
                ));
                Some(call)
            },
            None => None,
        }
    }

    /// Records the resolved UID and asks for the lease of that UID.
    fn resolved(&mut self, uid: String, now: Timestamp) -> (call: ApiCall)
        ensures
            *final(self) == (Kubelet {
                phase: Phase::CreatingLease,
                node_uid: Some(uid),
                renew_sent: Some(renew_time_at(old(self).renew_sent, now)),
                ..*old(self)
            }),
            call matches ApiCall::CreateLease(lease) && is_lease_of(
                lease,
                uid,
                old(self).node_name,
                renew_time_at(old(self).renew_sent, now),
            ),
    {
        let renew_time = later_of(&self.renew_sent, now);
        let lease = lease_definition(&uid, &self.node_name, &renew_time);
        self.renew_sent = Some(renew_time);
        self.node_uid = Some(uid);
        self.phase = Phase::CreatingLease;
        ApiCall::CreateLease(lease)
    }
}

/// `chrono::Utc::now` with `DateTime::timestamp_micros`: the current time in
/// microseconds since the Unix epoch. Nothing is claimed of the result.
#[verifier::external_body]
fn utc_now_micros() -> i64 {
    chrono::Utc::now().timestamp_micros()
}

/// One exchange of a run: the reply received, the time, and the call that
/// answered it.
pub struct Exchange {
    pub reply: ApiReply,
    pub now: Timestamp,
    pub call: ApiCall,
}

/// The `i`-th exchange leads from the `i`-th state to the next.
pub open spec fn exchange_ok(states: Seq<Kubelet>, exchanges: Seq<Exchange>, i: int) -> bool {
    Kubelet::answers(
        states[i],
        exchanges[i].reply,
        exchanges[i].now,
        states[i + 1],
        exchanges[i].call,
    )
}

/// A run of the agent: its states, from a well-formed one on, and the
/// exchanges that lead from each to the next.
pub open spec fn is_run(states: Seq<Kubelet>, exchanges: Seq<Exchange>) -> bool {
    &&& states.len() == exchanges.len() + 1
    &&& states[0].wf()
    &&& forall|i: int| 0 <= i < exchanges.len() ==> #[trigger] exchange_ok(states, exchanges, i)
}

/// Every state of a run is well-formed.
pub proof fn lemma_run_wf(states: Seq<Kubelet>, exchanges: Seq<Exchange>, i: int)
    requires
        is_run(states, exchanges),
        0 <= i < states.len(),
    ensures
        states[i].wf(),
    decreases i,
{
    if i > 0 {
        lemma_run_wf(states, exchanges, i - 1);
        assert(exchange_ok(states, exchanges, i - 1));
    }
}

/// Once the creation of the lease was asked for, the agent stays in the
/// renewal phases and keeps its UID.
pub proof fn lemma_uid_kept(states: Seq<Kubelet>, exchanges: Seq<Exchange>, i: int, j: int)
    requires
        is_run(states, exchanges),
        0 <= i <= j < states.len(),
        states[i].phase.renewing(),
    ensures
        states[j].phase.renewing(),
        states[j].node_uid == states[i].node_uid,
    decreases j - i,
{
    if i < j {
        lemma_uid_kept(states, exchanges, i, j - 1);
        assert(exchange_ok(states, exchanges, j - 1));
    }
}

/// The creation of a lease is asked for only in answer to a reply that
/// carries the UID of the node resource, found or created; the lease is
/// owned by that UID, and that UID is the one the agent keeps for the rest
/// of the run.
pub proof fn lemma_lease_owned_by_resolved_uid(
    states: Seq<Kubelet>,
    exchanges: Seq<Exchange>,
    i: int,
    j: int,
)
    requires
        is_run(states, exchanges),
        0 <= i < exchanges.len(),
        i < j < states.len(),
        exchanges[i].call is CreateLease,
    ensures
        exchanges[i].reply is NodeFound || exchanges[i].reply is NodeCreated,
        exchanges[i].reply matches ApiReply::NodeFound(uid) ==> exchanges[i].call->CreateLease_0.owner.uid
            == uid && states[j].node_uid == Some(uid),
        exchanges[i].reply matches ApiReply::NodeCreated(uid)
            ==> exchanges[i].call->CreateLease_0.owner.uid == uid && states[j].node_uid == Some(
            uid,
        ),
{
    assert(exchange_ok(states, exchanges, i));
    lemma_uid_kept(states, exchanges, i + 1, j);
}

/// The renew time that the agent sent last never goes back during a run.
pub proof fn lemma_renew_sent_never_earlier(
    states: Seq<Kubelet>,
    exchanges: Seq<Exchange>,
    i: int,
    j: int,
)
    requires
        is_run(states, exchanges),
        0 <= i <= j < states.len(),
    ensures
        never_earlier(micros_of(states[i].renew_sent), micros_of(states[j].renew_sent)),
    decreases j - i,
{
    if i < j {
        lemma_renew_sent_never_earlier(states, exchanges, i, j - 1);
        assert(exchange_ok(states, exchanges, j - 1));
    }
}

/// A renewal is asked for only once the UID is known, and no renewal
/// carries an earlier renew time than a renewal before it, whatever the
/// clock shows.
pub proof fn lemma_renewals_monotonic(
    states: Seq<Kubelet>,
    exchanges: Seq<Exchange>,
    i: int,
    j: int,
)
    requires
        is_run(states, exchanges),
        0 <= i <= j < exchanges.len(),
        exchanges[i].call is PatchLease,
        exchanges[j].call is PatchLease,
    ensures
        states[i].node_uid is Some,
        states[j].node_uid is Some,
        exchanges[i].call->PatchLease_0.renew_time.micros
            <= exchanges[j].call->PatchLease_0.renew_time.micros,
{
    assert(exchange_ok(states, exchanges, i));
    assert(exchange_ok(states, exchanges, j));
    lemma_run_wf(states, exchanges, i);
    lemma_run_wf(states, exchanges, j);
    if i < j {
        lemma_renew_sent_never_earlier(states, exchanges, i + 1, j);
    }
}

/// The first renewal carries no earlier renew time than the lease that was
/// created before it carried.
pub proof fn lemma_renewal_not_before_lease(
    states: Seq<Kubelet>,
    exchanges: Seq<Exchange>,
    i: int,
    j: int,
)
    requires
        is_run(states, exchanges),
        0 <= i < j < exchanges.len(),
        exchanges[i].call is CreateLease,
        exchanges[j].call is PatchLease,
    ensures
        exchanges[i].call->CreateLease_0.spec.renew_time.micros
            <= exchanges[j].call->PatchLease_0.renew_time.micros,
{
    assert(exchange_ok(states, exchanges, i));
    assert(exchange_ok(states, exchanges, j));
    lemma_renew_sent_never_earlier(states, exchanges, i + 1, j);
}

/// The renew time of the last successful renewal never decreases during a
/// run: once a renewal has succeeded, every later state records a success
/// with a renew time that is no earlier.
pub proof fn lemma_successful_renewals_monotonic(
    states: Seq<Kubelet>,
    exchanges: Seq<Exchange>,
    i: int,
    j: int,
)
    requires
        is_run(states, exchanges),
        0 <= i <= j < states.len(),
    ensures
        never_earlier(states[i].last_renew, states[j].last_renew),
    decreases j - i,
{
    if i < j {
        lemma_successful_renewals_monotonic(states, exchanges, i, j - 1);
        assert(exchange_ok(states, exchanges, j - 1));
    }
}

/// Where the clock shows no earlier time than the renew time sent last, the
/// renew time of a renewal is the time that the clock shows.
pub proof fn lemma_renewal_at_current_time(
    pre: Kubelet,
    reply: ApiReply,
    now: Timestamp,
    post: Kubelet,
    call: ApiCall,
)
    requires
        Kubelet::answers(pre, reply, now, post, call),
        call is PatchLease,
        pre.renew_sent is Some ==> pre.renew_sent->0.micros <= now.micros,
    ensures
        call->PatchLease_0.renew_time == now,
{
}

} // verus!
