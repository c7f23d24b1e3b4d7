//! Messages of the container-runtime protocol, reduced to the fields that
//! this agent sets or reads.

use vstd::prelude::*;

verus! {

/// State number that the runtime reports for a running container.
pub const CONTAINER_RUNNING: i32 = 1;

#[derive(Debug)]
pub struct VersionRequest {
    pub version: String,
}

#[derive(Debug)]
pub struct PodSandboxMetadata {
    pub name: String,
    pub uid: String,
    pub namespace: String,
    pub attempt: u32,
}

/// Sandbox configuration. Port mappings and DNS configuration are always
/// empty and therefore not represented.
#[derive(Debug)]
pub struct PodSandboxConfig {
    pub metadata: PodSandboxMetadata,
    pub hostname: String,
    pub log_directory: String,
}

#[derive(Debug)]
pub struct RunPodSandboxRequest {
    pub config: PodSandboxConfig,
    pub runtime_handler: String,
}

#[derive(Debug)]
pub struct ContainerMetadata {
    pub name: String,
    pub attempt: u32,
}

#[derive(Debug)]
pub struct ImageSpec {
    pub image: String,
}

#[derive(Debug)]
pub struct ContainerConfig {
    pub metadata: ContainerMetadata,
    pub image: ImageSpec,
    pub log_path: String,
}

#[derive(Debug)]
pub struct CreateContainerRequest {
    pub pod_sandbox_id: String,
    pub config: ContainerConfig,
    pub sandbox_config: PodSandboxConfig,
}

#[derive(Debug)]
pub struct StartContainerRequest {
    pub container_id: String,
}

/// One entry of a sandbox listing.
#[derive(Debug)]
pub struct PodSandbox {
    pub id: String,
    pub metadata: Option<PodSandboxMetadata>,
}

/// One entry of a container listing.
#[derive(Debug)]
pub struct Container {
    pub id: String,
    pub pod_sandbox_id: String,
    pub name: String,
    pub image: String,
    pub state: i32,
}

impl PodSandboxMetadata {
    /// A copy with equal fields.
    pub fn duplicate(&self) -> (r: Self)
        ensures
            r == *self,
    {
        PodSandboxMetadata {
            name: self.name.clone(),
            uid: self.uid.clone(),
            namespace: self.namespace.clone(),
            attempt: self.attempt,
        }
    }
}

impl PodSandboxConfig {
    /// A copy with equal fields.
    pub fn duplicate(&self) -> (r: Self)
        ensures
            r == *self,
    {
        PodSandboxConfig {
            metadata: self.metadata.duplicate(),
            hostname: self.hostname.clone(),
            log_directory: self.log_directory.clone(),
        }
    }
}

} // verus!
