//! Resolution of the output-sink configuration of the ceph decoder: YAML text
//! and command-line values in, one configuration value out.
pub mod config;
pub mod laws;
pub mod node;
pub mod resolve;
