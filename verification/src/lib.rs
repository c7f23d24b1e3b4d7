//! A minimal node agent: certificate bootstrap, node registration with lease
//! renewal, and the pod execution pipeline with its status reconciler.
//!
//! The library holds the decisions. Every exchange with the cluster API or
//! the container runtime is described by a value (a call to make, a reply
//! received); the program around the library performs the calls.

pub mod kubelet;
pub mod nodemod;
pub mod provider;
