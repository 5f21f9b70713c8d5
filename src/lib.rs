//! Scanning and quarantine engine of a local endpoint-protection tool.
//!
//! The library holds the decisions: which directory entries a scan takes,
//! which signature a file's bytes match, the event stream of one scan, the
//! quarantine record set and the notification log. The program around it
//! walks the filesystem, reads files, moves them and reports to the user.

pub mod model;
pub mod matching;
pub mod hashing;
pub mod scan;
pub mod clock;
pub mod quarantine;
pub mod notifications;
pub mod engine;
pub mod audit;
pub mod cleanup;
pub mod startup;
pub mod localization;
