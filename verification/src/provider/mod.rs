//! Requests sent to the container runtime, derived from a pod.

use vstd::prelude::*;
use vstd::string::*;
use self::cri::{
    ContainerConfig, ContainerMetadata, ImageSpec, PodSandboxConfig, PodSandboxMetadata,
    VersionRequest,
};

pub mod cri;
pub mod pod;

verus! {

/// One container entry of a pod.
#[derive(Debug)]
pub struct PodContainer {
    pub name: String,
    pub image: Option<String>,
}

#[derive(Debug)]
pub struct PodSpec {
    pub containers: Vec<PodContainer>,
}

/// What the agent reads of a pod assigned to this node.
#[derive(Debug)]
pub struct Pod {
    pub name: Option<String>,
    pub namespace: Option<String>,
    pub spec: Option<PodSpec>,
}

/// The sandbox and container configuration that running a pod sends to the
/// runtime.
#[derive(Debug)]
pub struct PodPlan {
    pub sandbox: PodSandboxConfig,
    pub container: ContainerConfig,
}

impl Pod {
    /// The pod carries a name, so a sandbox can be configured for it.
    pub open spec fn has_name(&self) -> bool {
        self.name is Some
    }

    /// The pod has a first container, and that container names an image.
    pub open spec fn has_first_image(&self) -> bool {
        &&& self.spec is Some
        &&& self.spec->0.containers@.len() > 0
        &&& self.spec->0.containers@[0].image is Some
    }

    /// What can be run: a named pod whose first container names an image.
    pub open spec fn runnable(&self) -> bool {
        self.has_name() && self.has_first_image()
    }

    /// Tells whether the pod can be run.
    pub fn is_runnable(&self) -> (r: bool)
        ensures
            r == self.runnable(),
    {
        match &self.spec {
            Some(spec) => self.name.is_some() && spec.containers.len() > 0
                && spec.containers[0].image.is_some(),
            None => false,
        }
    }

    /// The namespace of the pod; `default` where the pod names none.
    pub open spec fn namespace_view(&self) -> Seq<char> {
        match self.namespace {
            Some(ns) => ns@,
            None => "default"@,
        }
    }
}

/// Registry prefix that every image reference is rewritten to.
pub open spec fn registry_prefix() -> Seq<char> {
    "docker.io/library/"@
}

/// The colon at `i` opens the tag of `image`: neither another colon nor a
/// slash follows it. A colon that a slash follows belongs to the name (it
/// gives the port of a registry).
pub open spec fn is_tag_colon(image: Seq<char>, i: int) -> bool {
    &&& 0 <= i < image.len()
    &&& image[i] == ':'
    &&& forall|j: int| i < j < image.len() ==> image[j] != ':' && image[j] != '/'
}

/// The image without its tag: what stands before the colon that opens the
/// tag, and the whole of an image that names no tag.
pub open spec fn untagged(image: Seq<char>) -> Seq<char> {
    if exists|i: int| is_tag_colon(image, i) {
        image.take(choose|i: int| is_tag_colon(image, i))
    } else {
        image
    }
}

/// The image reference for `image`: the fixed registry, the image without
/// the tag that the pod names, and the tag `latest`.
pub open spec fn image_reference_view(image: Seq<char>) -> Seq<char> {
    registry_prefix() + untagged(image) + ":latest"@
}

/// Drops the tag of an image, if it names one.
pub fn untag(image: &str) -> (r: &str)
    ensures
        r@ == untagged(image@),
{
    let n = image.unicode_len();
    let mut i: usize = n;
    while i > 0
        invariant
            i <= n,
            n == image@.len(),
            forall|j: int| i <= j < n ==> image@[j] != ':' && image@[j] != '/',
        decreases i,
    {
        let c = image.get_char(i - 1);
        if c == ':' {
            proof {
                let at = i - 1;
                assert(is_tag_colon(image@, at));
                assert forall|k: int| is_tag_colon(image@, k) implies k == at by {
                    if k < at {
                        assert(image@[at] == ':');
                    }
                }
            }
            return image.substring_char(0, i - 1);
        }
        if c == '/' {
            proof {
                assert forall|k: int| !is_tag_colon(image@, k) by {
                    if is_tag_colon(image@, k) && k < i - 1 {
                        assert(image@[i - 1] == '/');
                    }
                }
            }
            return image;
        }
        i -= 1;
    }
    image
}

/// Rewrites an image name to the fixed registry and the tag `latest`,
/// whatever tag it names.
pub fn image_reference(image: &str) -> (r: String)
    ensures
        r@ == image_reference_view(image@),
{
    let mut r = String::from_str("docker.io/library/");
    r.append(untag(image));
    r.append(":latest");
    r
}

/// The version query.
pub fn version() -> (r: VersionRequest)
    ensures
        r.version@ == "1"@,
{
    VersionRequest { version: String::from_str("1") }
}

/// The sandbox configuration of a pod: its name and namespace, a fixed uid,
/// host name and log directory, attempt 0.
pub open spec fn is_sandbox_config_of(c: PodSandboxConfig, o: Pod) -> bool {
    &&& c.metadata.name == o.name->0
    &&& c.metadata.namespace@ == o.namespace_view()
    &&& c.metadata.uid@ == "123"@
    &&& c.metadata.attempt == 0
    &&& c.hostname@ == "my_hostname"@
    &&& c.log_directory@ == "/var/log/pods/sandbox"@
}

/// The container configuration of a pod: name and rewritten image of its
/// first container, a fixed log path, attempt 0.
pub open spec fn is_container_config_of(c: ContainerConfig, o: Pod) -> bool {
    &&& c.metadata.name == o.spec->0.containers@[0].name
    &&& c.metadata.attempt == 0
    &&& c.image.image@ == image_reference_view(o.spec->0.containers@[0].image->0@)
    &&& c.log_path@ == "/var/log/pods/container"@
}

/// Derives the sandbox configuration from the pod's metadata.
pub fn sandbox_config(o: &Pod) -> (c: PodSandboxConfig)
    requires
        o.has_name(),
    ensures
        is_sandbox_config_of(c, *o),
{
    let namespace = match &o.namespace {
        Some(ns) => ns.clone(),
        None => String::from_str("default"),
    };
    PodSandboxConfig {
        metadata: PodSandboxMetadata {
            name: o.name.as_ref().unwrap().clone(),
            uid: String::from_str("123"),
            namespace,
            attempt: 0,
        },
        hostname: String::from_str("my_hostname"),
        log_directory: String::from_str("/var/log/pods/sandbox"),
    }
}

/// Derives the container configuration from the pod's first container; any
/// further container is ignored.
pub fn container_config(o: &Pod) -> (c: ContainerConfig)
    requires
        o.has_first_image(),
    ensures
        is_container_config_of(c, *o),
{
    let first = &o.spec.as_ref().unwrap().containers[0];
    ContainerConfig {
        metadata: ContainerMetadata { name: first.name.clone(), attempt: 0 },
        image: ImageSpec { image: image_reference(first.image.as_ref().unwrap().as_str()) },
        log_path: String::from_str("/var/log/pods/container"),
    }
}

/// Both configurations that running the pod will send, computed before any
/// call is made.
pub fn run_pod(o: &Pod) -> (plan: PodPlan)
    requires
        o.runnable(),
    ensures
        is_sandbox_config_of(plan.sandbox, *o),
        is_container_config_of(plan.container, *o),
{
    PodPlan { sandbox: sandbox_config(o), container: container_config(o) }
}

} // verus!
