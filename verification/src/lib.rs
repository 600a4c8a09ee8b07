//! Loads a super-image partition layout from the bytes of one JSON document
//! into plain typed records.
//!
//! The crate is organised in four layers: `json` models a parsed document,
//! `syntax` obtains that model from serde_json, `config` holds the records a
//! load fills, and `schema` states and checks which members each record
//! requires — `schema::parse_partition_config` is the operation callers use.
//! Opening and reading the file is the caller's part; it hands the bytes in
//! and keeps I/O failures apart from parse failures.

pub mod config;
pub mod json;
pub mod schema;
pub mod syntax;

pub use config::BlockDevice;
pub use config::Group;
pub use config::Partition;
pub use config::PartitionConfig;
pub use config::SuperMeta;
pub use json::JsonValue;
