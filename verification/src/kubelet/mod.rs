pub mod bootstrapping;
pub mod minikubelet;
