//! Streaming SIEM core: the value model for log events, the conversion of JSON
//! objects to columnar rows, routing by event class, detection findings, and
//! the decisions of the writer and the supervisor.

pub mod config;
pub mod convert;
pub mod detection;
pub mod event;
pub mod ingest;
pub mod json;
pub mod ocsf;
pub mod readback;
pub mod schema;
pub mod storage;
pub mod supervisor;
pub mod templates;
