//! Verified core of websocat's node machinery: the property model that the
//! `WebsocatNode` and `WebsocatEnum` derives build from a type declaration,
//! the Rust code they emit for it, and the decisions of the high-level HTTP
//! client node (option validation, request shape, WebSocket handshake check).
pub mod text;
pub mod model;
pub mod class_info;
pub mod codegen_util;
pub mod node_codegen;
pub mod builder_codegen;
pub mod class_codegen;
pub mod enum_codegen;
pub mod http_syntax;
pub mod handshake;
pub mod http_client;
pub mod run_steps;
