//! Verified core of a JSON log collector: access rules for log indexes,
//! report rendering, request decisions and the messages it exchanges.
pub mod admin;
pub mod auth;
pub mod credentials;
pub mod error;
pub mod event;
pub mod handlers;
pub mod ids;
pub mod json;
pub mod report;
pub mod rest;
pub mod rpc;
pub mod schemes;
pub mod sql;
pub mod text;
pub mod utils;
