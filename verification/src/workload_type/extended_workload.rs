//! Workload types that are custom resources of other projects.
pub mod openfaas;
pub mod others;
