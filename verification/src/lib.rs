//! Verified core of a stand-alone PipeWire host for a neural amp modeler.

pub mod capture;
pub mod cli;
pub mod commands;
pub mod duration;
pub mod gate;
pub mod gc;
pub mod handlers;
pub mod harness;
pub mod identity;
pub mod laws;
pub mod lexer;
pub mod negotiation;
pub mod output_pw;
pub mod payload;
pub mod pod;
pub mod process;
pub mod rate_sync;
pub mod reconnect;
pub mod rings;
pub mod rt_status;
pub mod run;
pub mod single;
pub mod status;
pub mod stream_status;
pub mod swap;
pub mod text;
pub mod wakeup;
