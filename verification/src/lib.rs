use vstd::prelude::*;

pub mod text;
pub mod clock;
pub mod printed_numbers;
pub mod styled;
pub mod sequences;
pub mod ignore_template;
pub mod network_resilience;
pub mod blender_metadata;
pub mod hooks;
pub mod oxen_backend;
pub mod branches;
pub mod bounce;
pub mod config;
pub mod console;
pub mod console_view;
pub mod daemon_client;
pub mod lock_integration;
pub mod chunked_upload;
pub mod conflict_detection;
pub mod logic_parser;
pub mod collaboration;
pub mod backup_recovery;
pub mod blender_round_trip;
pub mod operation_history;
pub mod blender_project;

verus! {
} // verus!
