//! Verified logic for replaying, generating and streaming Aptos transactions.
//!
//! Every module states what it computes over plain values; clocks, channels,
//! storages and servers are driven from outside.

pub mod args;
pub mod args_laws;
pub mod batch;
pub mod bytes;
pub mod config;
pub mod diff;
pub mod diff_laws;
pub mod dispatch_laws;
pub mod dispatch_run;
pub mod dkg_laws;
pub mod entry_points;
pub mod gas_laws;
pub mod grpc_response_dispatcher;
pub mod html;
pub mod mix_laws;
pub mod ordered_keys;
pub mod output_laws;
pub mod page_laws;
pub mod randomness;
pub mod rpc_status;
pub mod service_laws;
pub mod setup_laws;
pub mod stage_laws;
pub mod status_page;
pub mod stream_laws;
pub mod text;
pub mod text_laws;
pub mod workflow_creator;
pub mod workflow_delegator;
pub mod workflow_laws;
