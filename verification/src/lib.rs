//! The decision-making half of the FerrisKey realm import operator.
//!
//! A FerrisKeyRealmImport resource asks for a realm with clients and roles in a FerrisKey cluster.
//! This library decides what has to be done for it: which resources to read, which requests to
//! send, what the replies mean, what to report. It performs no I/O. A flow hands out commands, is
//! handed back what came of each, and ends with a result.
pub mod text;
pub mod json;
pub mod error;
pub mod entities;
pub mod crds;
pub mod http;
pub mod api;
pub mod credentials;
pub mod connect;
pub mod import_flow;
pub mod cleanup_flow;
pub mod plan;
pub mod ports;
pub mod services;
pub mod controller;
pub mod reconcile;
pub mod laws;
pub mod request_laws;
pub mod data_laws;
pub mod reply_laws;
pub mod course_laws;
pub mod operation_laws;
