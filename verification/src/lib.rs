//! Decision core of a tailnet node runtime.
pub mod ask;
pub mod control_rpc;
pub mod dataplane;
pub mod delivery;
pub mod device_state;
pub mod error;
pub mod exit_node;
pub mod kernel_wg;
pub mod metrics;
pub mod net;
pub mod netstack;
pub mod node;
pub mod paths;
pub mod routes;
pub mod runtime;
pub mod shutdown;
pub mod startup;
pub mod status;
pub mod supervise;
pub mod taildrop;
pub mod text;
pub mod whois;
