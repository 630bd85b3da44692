//! Schema compiler for Bluetooth Low Energy GATT services and advertisement
//! payloads.
//!
//! A schema describes either a GATT server, service or client, or the fields
//! of an advertisement. The GATT side turns a declaration into a description
//! of the handles, operations and events of each characteristic, and decides
//! at run time which event an inbound write stands for. The advertisement
//! side renders flags, service lists and names into length-prefixed
//! advertising-data structures.

pub mod error;
pub mod text;
pub mod token;
pub mod lexer;
pub mod uuid;
pub mod characteristic;
pub mod property_list;
pub mod naming;
pub mod schema;
pub mod artifact;
pub mod service;
pub mod server;
pub mod client;
pub mod basic_service;
pub mod advertisement;
pub mod ad_structure;
pub mod encoder;
pub mod adv_parser;
pub mod generate;

pub use crate::client::gatt_client;
pub use crate::generate::generate_adv_data;
pub use crate::server::gatt_server;
pub use crate::service::gatt_service;
