//! Core of a bare-metal fleet controller: a generic object state-machine
//! framework with deferred writes, work-lock leases and SLA escalation, and
//! an IP/prefix allocation engine over network segments and VPC prefixes.

pub mod allocator;
pub mod clock;
pub mod columns;
pub mod controller;
pub mod device_handlers;
pub mod engine;
pub mod errors;
pub mod firmware;
pub mod lease;
pub mod machine_validation;
pub mod managed_host;
pub mod netparse;
pub mod outcome;
pub mod prefix;
pub mod rack;
pub mod resource_pool;
pub mod segment;
pub mod segment_handler;
pub mod state_handler;
pub mod version;
pub mod vpc;
pub mod write_batch;
