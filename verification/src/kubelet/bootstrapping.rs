//! The certificate bootstrap: the signing request of this host, and the
//! state machine that follows the watch on it until it is approved.

use vstd::prelude::*;
use vstd::string::*;
use vstd::utf8::{decode_utf8, encode_utf8, valid_utf8};
use chrono::{Duration, Utc};
use rcgen::{
    Certificate, CertificateParams, DistinguishedName, DnType, KeyPair, SanType,
    PKCS_ECDSA_P256_SHA256,
};

verus! {

/// Weeks for which the requested certificate is to be valid.
pub const VALIDITY_WEEKS: u16 = 52;

/// What the signing request says of this host.
#[derive(Debug)]
pub struct CsrSubject {
    pub organization: String,
    pub common_name: String,
    pub dns_name: String,
    pub ip: [u8; 4],
    pub validity_weeks: u16,
}

/// A fresh private key and the signing request made with it, both in PEM.
#[derive(Debug)]
pub struct KeyMaterial {
    pub request_pem: String,
    pub private_key_pem: String,
}

/// The signing request as it is submitted to the cluster.
#[derive(Debug)]
pub struct CsrRequest {
    pub name: String,
    pub request: String,
    pub signer_name: String,
    pub usages: Vec<String>,
}

/// The issued serving credential.
#[derive(Debug)]
pub struct SignedIdentity {
    pub certificate: String,
    pub private_key: String,
}

/// The status of a signing request: the issued certificate, if any, and the
/// types of its conditions, if any.
#[derive(Debug)]
pub struct CsrStatus {
    pub certificate: Option<Vec<u8>>,
    pub conditions: Option<Vec<String>>,
}

/// One event of the watch, with the status of each resource it delivers.
#[derive(Debug)]
pub enum WatchEvent {
    Applied(Option<CsrStatus>),
    Restarted(Vec<Option<CsrStatus>>),
    Deleted,
}

/// Why a bootstrap failed.
#[derive(Clone, Copy, Debug, PartialEq, Eq, Structural)]
pub enum BootstrapError {
    /// No key pair or signing request could be made.
    KeyGeneration,
    /// A restart of the watch delivered more than one request of this name.
    Collision,
    /// The request was deleted before it was approved.
    Deleted,
    /// The watch ended before the request was approved.
    NeverApproved,
    /// The issued certificate is not UTF-8 text.
    InvalidCertificate,
}

/// What one event decides.
#[derive(Debug)]
pub enum Step {
    /// Not approved yet: read the next event.
    Pending,
    /// Approved, with the certificate as text.
    Approved(String),
    Failed(BootstrapError),
}

pub enum StepView {
    Pending,
    Approved(Seq<char>),
    Failed(BootstrapError),
}

impl View for Step {
    type V = StepView;

    open spec fn view(&self) -> StepView {
        match self {
            Step::Pending => StepView::Pending,
            Step::Approved(c) => StepView::Approved(c@),
            Step::Failed(e) => StepView::Failed(*e),
        }
    }
}

/// The standard base64 encoding, with padding, of `input`.
pub uninterp spec fn base64_text(input: Seq<u8>) -> Seq<char>;

/// `base64::encode`: the contract names the text that it returns for the
/// given bytes; the same bytes always give the same text.
#[verifier::external_body]
fn base64_encode(input: &[u8]) -> (r: String)
    ensures
        r@ == base64_text(input@),
{
    base64::encode(input)
}

/// `core::str::from_utf8`: the bytes are accepted exactly when they are
/// valid UTF-8, and the text is then what they encode.
#[verifier::external_body]
fn utf8_text(bytes: &[u8]) -> (r: Option<&str>)
    ensures
        r is Some <==> valid_utf8(bytes@),
        r is Some ==> r->0@ == decode_utf8(bytes@),
{
    core::str::from_utf8(bytes).ok()
}

/// `rcgen::RcgenError`; only its presence is read here.
#[verifier::external_type_specification]
#[verifier::external_body]
pub struct ExRcgenError(rcgen::RcgenError);

/// Makes a random key pair and the signing request of the subject, signed
/// with it. The body fills `rcgen::CertificateParams` (validity from
/// `chrono::Utc::now` for the given number of weeks, the distinguished name,
/// the ECDSA P-256 algorithm, the alternative names), then calls
/// `rcgen::KeyPair::generate`, `rcgen::Certificate::from_params`,
/// `Certificate::serialize_request_pem` and
/// `Certificate::serialize_private_key_pem`. Both texts come from
/// `pem::encode`, which frames the data between a `BEGIN` and an `END` line
/// of the tag; nothing else is claimed of them, as they differ from call to
/// call. The calls stand together so that rcgen sees only parameters made
/// here, with built-in name types and a key pair that is held here.
#[verifier::external_body]
fn issue_request(s: &CsrSubject) -> (r: Result<KeyMaterial, rcgen::RcgenError>)
    ensures
        r matches Ok(key) ==> key.pem_framed(),
{
    let mut p = CertificateParams::default();
    p.not_before = Utc::now();
    p.not_after = Utc::now() + Duration::weeks(i64::from(s.validity_weeks));
    p.distinguished_name = DistinguishedName::new();
    p.distinguished_name.push(DnType::OrganizationName, s.organization.as_str());
    p.distinguished_name.push(DnType::CommonName, s.common_name.as_str());
    p.alg = &PKCS_ECDSA_P256_SHA256;
    p.subject_alt_names =
        vec![SanType::DnsName(s.dns_name.clone()), SanType::IpAddress(s.ip.into())];
    p.key_pair = Some(KeyPair::generate(&PKCS_ECDSA_P256_SHA256)?);
    let cert = Certificate::from_params(p)?;
    let request_pem = cert.serialize_request_pem()?;
    Ok(KeyMaterial { request_pem, private_key_pem: cert.serialize_private_key_pem() })
}

/// The subject of the host `host` at the address `ip`: the node's name
/// under the organization of all nodes, with the host name and the address
/// as alternative names.
pub open spec fn is_subject_of(s: CsrSubject, host: Seq<char>, ip: [u8; 4]) -> bool {
    &&& s.organization@ == "system:nodes"@
    &&& s.common_name@ == "system:node:"@ + host
    &&& s.dns_name@ == host
    &&& s.ip == ip
    &&& s.validity_weeks == VALIDITY_WEEKS
}

/// Builds the subject of a host.
pub fn csr_subject(host: &str, ip: [u8; 4]) -> (s: CsrSubject)
    ensures
        is_subject_of(s, host@, ip),
{
    let mut common_name = String::from_str("system:node:");
    common_name.append(host);
    CsrSubject {
        organization: String::from_str("system:nodes"),
        common_name,
        dns_name: String::from_str(host),
        ip,
        validity_weeks: VALIDITY_WEEKS,
    }
}

/// What the generation of key material yields: the key material where it
/// succeeded, and `KeyGeneration` where it failed, whatever the cause.
pub fn key_material(issued: Result<KeyMaterial, rcgen::RcgenError>) -> (r: Result<
    KeyMaterial,
    BootstrapError,
>)
    ensures
        issued matches Ok(key) ==> r == Ok::<KeyMaterial, BootstrapError>(key),
        issued is Err ==> r == Err::<KeyMaterial, BootstrapError>(BootstrapError::KeyGeneration),
{
    match issued {
        Ok(key) => Ok(key),
        Err(_) => Err(BootstrapError::KeyGeneration),
    }
}

/// Generates a key pair and the signing request of a host, both as PEM
/// text. Whether a key pair can be made is decided outside; a failure is
/// reported as `KeyGeneration`, and no other error is.
pub fn gen_tls_cert(host: &str, ip: [u8; 4]) -> (r: Result<KeyMaterial, BootstrapError>)
    ensures
        r is Err ==> r->Err_0 == BootstrapError::KeyGeneration,
        r matches Ok(key) ==> key.pem_framed(),
{
    let subject = csr_subject(host, ip);
    key_material(issue_request(&subject))
}

/// `text` is PEM under the tag `tag`: it begins with the `BEGIN` line of
/// the tag and ends with its `END` line, each closed by a carriage return
/// and a line feed.
pub open spec fn is_pem(text: Seq<char>, tag: Seq<char>) -> bool {
    &&& ("-----BEGIN "@ + tag + "-----\r\n"@).is_prefix_of(text)
    &&& ("-----END "@ + tag + "-----\r\n"@).is_suffix_of(text)
}

impl KeyMaterial {
    /// The request is PEM under the tag of a certificate request, and the
    /// private key is PEM under the tag of a private key.
    pub open spec fn pem_framed(&self) -> bool {
        &&& is_pem(self.request_pem@, "CERTIFICATE REQUEST"@)
        &&& is_pem(self.private_key_pem@, "PRIVATE KEY"@)
    }
}

/// The usages asked for: those of a serving certificate.
pub open spec fn serving_usages() -> Seq<Seq<char>> {
    seq!["digital signature"@, "key encipherment"@, "server auth"@]
}

/// The views of a list of strings, in order.
pub open spec fn texts(v: Seq<String>) -> Seq<Seq<char>> {
    Seq::new(v.len(), |i: int| v[i]@)
}

/// `r` is the request of the host `host` that carries `encoded`: named
/// after the host, for the kubelet-serving signer.
pub open spec fn is_csr_of(r: CsrRequest, host: Seq<char>, encoded: Seq<char>) -> bool {
    &&& r.name@ == host + "-tls"@
    &&& r.request@ == encoded
    &&& r.signer_name@ == "kubernetes.io/kubelet-serving"@
    &&& texts(r.usages@) == serving_usages()
}

/// Builds the request to submit from the encoded signing request.
pub fn csr_with_request(host: &str, encoded: String) -> (r: CsrRequest)
    ensures
        is_csr_of(r, host@, encoded@),
{
    let mut name = String::from_str(host);
    name.append("-tls");
    let mut usages: Vec<String> = Vec::new();
    usages.push(String::from_str("digital signature"));
    usages.push(String::from_str("key encipherment"));
    usages.push(String::from_str("server auth"));
    assert(texts(usages@) =~= serving_usages());
    CsrRequest {
        name,
        request: encoded,
        signer_name: String::from_str("kubernetes.io/kubelet-serving"),
        usages,
    }
}

/// Builds the request to submit: the PEM text of the signing request,
/// base64-encoded, under the name of the host.
pub fn csr_definition(host: &str, request_pem: &str) -> (r: CsrRequest)
    ensures
        is_csr_of(r, host@, base64_text(encode_utf8(request_pem@))),
{
    csr_with_request(host, base64_encode(request_pem.as_bytes()))
}

/// The field selector of the watch: the one resource of the given name.
pub fn watch_selector(csr_name: &str) -> (r: String)
    ensures
        r@ == "metadata.name="@ + csr_name@,
{
    let mut r = String::from_str("metadata.name=");
    r.append(csr_name);
    r
}

/// Begins the bootstrap of a host: a fresh key with its signing request, both
/// as PEM text, and the request to submit, which carries the signing request
/// base64-encoded.
pub fn bootstrap(host: &str, ip: [u8; 4]) -> (r: Result<(KeyMaterial, CsrRequest), BootstrapError>)
    ensures
        r is Err ==> r->Err_0 == BootstrapError::KeyGeneration,
        r matches Ok(p) ==> p.0.pem_framed() && is_csr_of(
            p.1,
            host@,
            base64_text(encode_utf8(p.0.request_pem@)),
        ),
{
    match gen_tls_cert(host, ip) {
        Ok(key) => {
            let csr = csr_definition(host, key.request_pem.as_str());
            Ok((key, csr))
        },
        Err(e) => Err(e),
    }
}

/// The status carries a condition of the type `Approved`.
pub open spec fn has_approval(st: CsrStatus) -> bool {
    st.conditions is Some && exists|i: int|
        0 <= i < st.conditions->0@.len() && (#[trigger] st.conditions->0@[i])@ == "Approved"@
}

/// Approved with certificate: the status carries both an issued certificate
/// and a condition of the type `Approved`.
pub open spec fn approved(st: CsrStatus) -> bool {
    st.certificate is Some && has_approval(st)
}

/// What a status decides: nothing until it is approved with certificate;
/// then the certificate as text, or a failure if it is no text.
pub open spec fn status_step(st: CsrStatus) -> StepView {
    if approved(st) {
        if valid_utf8(st.certificate->0@) {
            StepView::Approved(decode_utf8(st.certificate->0@))
        } else {
            StepView::Failed(BootstrapError::InvalidCertificate)
        }
    } else {
        StepView::Pending
    }
}

/// A restart that delivers two or more resources.
pub open spec fn is_collision(event: WatchEvent) -> bool {
    event matches WatchEvent::Restarted(items) && items@.len() >= 2
}

/// What a delivered resource decides: nothing while it has no status, which
/// carries neither certificate nor approval; else what its status decides.
pub open spec fn resource_step(st: Option<CsrStatus>) -> StepView {
    match st {
        Some(status) => status_step(status),
        None => StepView::Pending,
    }
}

/// What an event decides. A deletion and a restart with two or more
/// resources fail; an applied resource, and the one resource of a restart,
/// decide as `resource_step` says; a restart that delivers nothing decides
/// nothing.
pub open spec fn event_step(event: WatchEvent) -> StepView {
    match event {
        WatchEvent::Applied(st) => resource_step(st),
        WatchEvent::Restarted(items) => if items@.len() >= 2 {
            StepView::Failed(BootstrapError::Collision)
        } else if items@.len() == 1 {
            resource_step(items@[0])
        } else {
            StepView::Pending
        },
        WatchEvent::Deleted => StepView::Failed(BootstrapError::Deleted),
    }
}

/// The event delivers, alone, a resource that is approved with certificate.
pub open spec fn is_approval(event: WatchEvent) -> bool {
    match event {
        WatchEvent::Applied(st) => st is Some && approved(st->0),
        WatchEvent::Restarted(items) => items@.len() == 1 && items@[0] is Some && approved(
            items@[0]->0,
        ),
        WatchEvent::Deleted => false,
    }
}

/// What a whole watch stream decides: the decision of its first event
/// that decides anything, and `NeverApproved` if it ends before.
pub open spec fn stream_outcome(events: Seq<WatchEvent>) -> StepView
    decreases events.len(),
{
    if events.len() == 0 {
        StepView::Failed(BootstrapError::NeverApproved)
    } else {
        match event_step(events[0]) {
            StepView::Pending => stream_outcome(events.skip(1)),
            decided => decided,
        }
    }
}

/// How many events of a stream are read until it is decided.
pub open spec fn events_read(events: Seq<WatchEvent>) -> nat
    decreases events.len(),
{
    if events.len() == 0 {
        0
    } else {
        match event_step(events[0]) {
            StepView::Pending => 1 + events_read(events.skip(1)),
            _ => 1,
        }
    }
}

/// Tells whether some condition is of the type `Approved`.
fn any_approved(conditions: &Vec<String>) -> (r: bool)
    ensures
        r == exists|i: int|
            0 <= i < conditions@.len() && (#[trigger] conditions@[i])@ == "Approved"@,
{
    let approved_type = String::from_str("Approved");
    let mut i: usize = 0;
    while i < conditions.len()
        invariant
            i <= conditions.len(),
            approved_type@ == "Approved"@,
            forall|j: int| 0 <= j < i ==> (#[trigger] conditions@[j])@ != "Approved"@,
        decreases conditions.len() - i,
    {
        if conditions[i] == approved_type {
            return true;
        }
        i += 1;
    }
    false
}

/// Decides on a status.
pub fn status_decision(st: &CsrStatus) -> (step: Step)
    ensures
        step@ == status_step(*st),
{
    if let Some(cert) = &st.certificate {
        if let Some(conditions) = &st.conditions {
            if any_approved(conditions) {
                return match utf8_text(cert.as_slice()) {
                    Some(text) => Step::Approved(String::from_str(text)),
                    None => Step::Failed(BootstrapError::InvalidCertificate),
                };
            }
        }
    }
    Step::Pending
}

/// Decides on a delivered resource.
pub fn resource_decision(st: &Option<CsrStatus>) -> (step: Step)
    ensures
        step@ == resource_step(*st),
{
    match st {
        Some(status) => status_decision(status),
        None => Step::Pending,
    }
}

/// Decides on one event of the watch.
///
/// A resource that is approved with certificate ends the watch with the
/// certificate; a restart with more than one resource, and a deletion, end
/// it with a failure; anything else leaves it pending.
pub fn watch_step(event: &WatchEvent) -> (step: Step)
    ensures
        step@ == event_step(*event),
{
    match event {
        WatchEvent::Applied(st) => resource_decision(st),
        WatchEvent::Restarted(items) => {
            if items.len() >= 2 {
                Step::Failed(BootstrapError::Collision)
            } else if items.len() == 1 {
                resource_decision(&items[0])
            } else {
                Step::Pending
            }
        },
        WatchEvent::Deleted => Step::Failed(BootstrapError::Deleted),
    }
}

/// What a decided stream yields with the private key `key`.
pub open spec fn identity_of(outcome: StepView, r: Result<SignedIdentity, BootstrapError>, key: String)
    -> bool {
    match outcome {
        StepView::Approved(cert) => r matches Ok(id) && id.certificate@ == cert && id.private_key
            == key,
        StepView::Failed(e) => r == Err::<SignedIdentity, BootstrapError>(e),
        StepView::Pending => false,
    }
}

/// The `i`-th event is the first of the stream that decides anything.
pub open spec fn decided_at(events: Seq<WatchEvent>, i: int) -> bool {
    &&& 0 <= i < events.len()
    &&& !(event_step(events[i]) is Pending)
    &&& forall|j: int| 0 <= j < i ==> event_step(#[trigger] events[j]) is Pending
}

/// The result `r` after `n` events read is that of a stream read up to its
/// first decision: either no event decides, every event was read and the
/// result is `NeverApproved`; or the last event read is the first that
/// decides, and the result is what it decides, success exactly where it
/// delivers an approval whose certificate is text.
pub open spec fn read_to_first_decision(
    events: Seq<WatchEvent>,
    r: Result<SignedIdentity, BootstrapError>,
    n: int,
) -> bool {
    if r == Err::<SignedIdentity, BootstrapError>(BootstrapError::NeverApproved) {
        &&& n == events.len()
        &&& forall|j: int| 0 <= j < n ==> event_step(#[trigger] events[j]) is Pending
    } else {
        &&& decided_at(events, n - 1)
        &&& r is Ok <==> event_step(events[n - 1]) is Approved
        &&& r is Ok ==> is_approval(events[n - 1])
        &&& r matches Err(e) ==> event_step(events[n - 1]) == StepView::Failed(e)
    }
}

/// Follows a watch stream that has ended, from its first event on, and
/// returns the identity to persist together with the number of events read.
///
/// Every stream is taken. It is read up to its first event that decides;
/// the events after it are not looked at. A stream that ends undecided
/// fails with `NeverApproved`.
pub fn bootstrap_tls(key: KeyMaterial, events: &Vec<WatchEvent>) -> (r: (
    Result<SignedIdentity, BootstrapError>,
    usize,
))
    ensures
        identity_of(stream_outcome(events@), r.0, key.private_key_pem),
        r.1 == events_read(events@),
        r.1 <= events@.len(),
        read_to_first_decision(events@, r.0, r.1 as int),
{
    let mut i: usize = 0;
    assert(events@.skip(0) =~= events@);
    while i < events.len()
        invariant
            i <= events.len(),
            forall|j: int| 0 <= j < i ==> event_step(#[trigger] events@[j]) is Pending,
            stream_outcome(events@) == stream_outcome(events@.skip(i as int)),
            events_read(events@) == i + events_read(events@.skip(i as int)),
        decreases events.len() - i,
    {
        assert(events@.skip(i as int)[0] == events@[i as int]);
        assert(events@.skip(i as int).skip(1) =~= events@.skip(i + 1));
        match watch_step(&events[i]) {
            Step::Pending => {},
            Step::Approved(certificate) => {
                return (
                    Ok(SignedIdentity { certificate, private_key: key.private_key_pem }),
                    i + 1,
                );
            },
            Step::Failed(e) => {
                return (Err(e), i + 1);
            },
        }
        i += 1;
    }
    (Err(BootstrapError::NeverApproved), i)
}

/// The first event that decides anything decides the stream, and it is the
/// last event read: whatever follows it is not consumed.
pub proof fn lemma_first_decision_ends_stream(events: Seq<WatchEvent>, i: int)
    requires
        decided_at(events, i),
    ensures
        stream_outcome(events) == event_step(events[i]),
        events_read(events) == i + 1,
    decreases i,
{
    if i > 0 {
        let rest = events.skip(1);
        assert(event_step(events[0]) is Pending);
        assert(rest[i - 1] == events[i]);
        assert forall|j: int| 0 <= j < i - 1 implies event_step(#[trigger] rest[j]) is Pending by {
            assert(rest[j] == events[j + 1]);
        }
        lemma_first_decision_ends_stream(rest, i - 1);
    }
}

/// A stream in which no event decides anything ends in `NeverApproved`
/// once every one of its events was read.
pub proof fn lemma_undecided_stream_is_exhausted(events: Seq<WatchEvent>)
    requires
        forall|i: int| 0 <= i < events.len() ==> event_step(#[trigger] events[i]) is Pending,
    ensures
        stream_outcome(events) == StepView::Failed(BootstrapError::NeverApproved),
        events_read(events) == events.len(),
    decreases events.len(),
{
    if events.len() > 0 {
        let rest = events.skip(1);
        assert(event_step(events[0]) is Pending);
        assert forall|i: int| 0 <= i < rest.len() implies event_step(#[trigger] rest[i]) is Pending by {
            assert(rest[i] == events[i + 1]);
        }
        lemma_undecided_stream_is_exhausted(rest);
    }
}

/// A stream that is decided otherwise than by running out has a first
/// event that decides, and that event gives the outcome.
pub proof fn lemma_decision_has_first_event(events: Seq<WatchEvent>) -> (i: int)
    requires
        stream_outcome(events) != StepView::Failed(BootstrapError::NeverApproved),
    ensures
        decided_at(events, i),
        event_step(events[i]) == stream_outcome(events),
    decreases events.len(),
{
    if event_step(events[0]) is Pending {
        let rest = events.skip(1);
        let k = lemma_decision_has_first_event(rest);
        assert(rest[k] == events[k + 1]);
        assert forall|j: int| 0 <= j < k + 1 implies event_step(#[trigger] events[j]) is Pending by {
            if j > 0 {
                assert(rest[j - 1] == events[j]);
            }
        }
        k + 1
    } else {
        0
    }
}

/// A watch stream in which no event delivers an approval with certificate
/// ends in a failure, however long it is and whatever else it holds, and
/// no more events are read than it has.
pub proof fn lemma_unapproved_stream_fails(events: Seq<WatchEvent>)
    requires
        forall|i: int| 0 <= i < events.len() ==> !is_approval(#[trigger] events[i]),
    ensures
        stream_outcome(events) is Failed,
        events_read(events) <= events.len(),
    decreases events.len(),
{
    if events.len() > 0 {
        let rest = events.skip(1);
        assert(!is_approval(events[0]));
        assert forall|i: int| 0 <= i < rest.len() implies !is_approval(#[trigger] rest[i]) by {
            assert(rest[i] == events[i + 1]);
        }
        lemma_unapproved_stream_fails(rest);
    }
}

/// A restart that delivers two or more resources fails the bootstrap at
/// once: if nothing before it decided, then whatever events follow it, the
/// outcome is `Collision`, and no event after the restart is read.
pub proof fn lemma_collision_ends_stream(events: Seq<WatchEvent>, i: int)
    requires
        0 <= i < events.len(),
        is_collision(events[i]),
        forall|j: int| 0 <= j < i ==> event_step(#[trigger] events[j]) is Pending,
    ensures
        stream_outcome(events) == StepView::Failed(BootstrapError::Collision),
        events_read(events) == i + 1,
{
    lemma_first_decision_ends_stream(events, i);
}

/// A deletion fails the bootstrap at once: if nothing before it decided,
/// the outcome is `Deleted`, and no event after the deletion is read.
pub proof fn lemma_deletion_ends_stream(events: Seq<WatchEvent>, i: int)
    requires
        0 <= i < events.len(),
        events[i] is Deleted,
        forall|j: int| 0 <= j < i ==> event_step(#[trigger] events[j]) is Pending,
    ensures
        stream_outcome(events) == StepView::Failed(BootstrapError::Deleted),
        events_read(events) == i + 1,
{
    lemma_first_decision_ends_stream(events, i);
}

/// The bootstrap succeeds exactly when the first event that decides
/// anything delivers an approval whose certificate is UTF-8 text: no
/// deletion, no collision and no approval with a certificate that is no
/// text comes before it.
pub proof fn lemma_success_exactly(events: Seq<WatchEvent>)
    ensures
        stream_outcome(events) is Approved <==> exists|i: int|
            #[trigger] decided_at(events, i) && event_step(events[i]) is Approved,
        forall|i: int|
            #[trigger] decided_at(events, i) && event_step(events[i]) is Approved ==> is_approval(
                events[i],
            ),
{
    if stream_outcome(events) is Approved {
        let i = lemma_decision_has_first_event(events);
        assert(decided_at(events, i) && event_step(events[i]) is Approved);
    }
    assert forall|i: int|
        #[trigger] decided_at(events, i) && event_step(events[i]) is Approved implies stream_outcome(
        events,
    ) is Approved && is_approval(events[i]) by {
        lemma_first_decision_ends_stream(events, i);
    }
}

} // verus!
