//! A compose-file planner for container runtimes: turns a declarative
//! multi-service application description into the ordered list of runtime
//! command invocations that realizes it, under either a shared-pod or a
//! shared-network topology.

pub mod config;
pub mod container_compose;
