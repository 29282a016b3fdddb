//! A broker of temporary cloud credentials for the workloads of a cluster:
//! the credential cache, the verification of callers, the role-mapping
//! table, the admission mutator, and the machines that drive reloads and
//! shutdown. Everything here is a function of plain values; listeners,
//! clients and files belong to the program around it.

pub mod agent;
pub mod apply;
pub mod config;
pub mod credentials;
pub mod error;
pub mod identity;
pub mod lifecycle;
pub mod mappings;
pub mod middleware;
pub mod patch;
pub mod text;
pub mod tls;
pub mod watch;
pub mod webhook;
