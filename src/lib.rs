//! A relay that stages an uploaded image on local disk, forwards it to a
//! messaging platform that hosts it, and answers with the public address the
//! platform gives it.
//!
//! The library holds the decisions of that pipeline; the program around it
//! performs the network and disk work that they call for.
pub mod config;
pub mod error;
pub mod limiter;
pub mod pipeline;
pub mod staging;
pub mod uploader;
