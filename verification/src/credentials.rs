//! The settings the collector reads from its environment, with their defaults.
use vstd::prelude::*;
use vstd::string::*;
use crate::text::{parse_bounded_spec, parse_u32, parse_usize};

verus! {

/// The value of a setting, or its default where it is not set.
pub open spec fn setting_or(value: Option<String>, default: Seq<char>) -> Seq<char> {
    match value {
        Some(v) => v@,
        None => default,
    }
}

fn value_or(value: Option<String>, default: &str) -> (r: String)
    ensures
        r@ == setting_or(value, default@),
{
    match value {
        Some(v) => v,
        None => String::from_str(default),
    }
}

/// The database schema of the index tables (`POSTGRES_SCHEMA`, default `indexes`).
pub fn postgres_schema(value: Option<String>) -> (r: String)
    ensures
        r@ == setting_or(value, "indexes"@),
{
    value_or(value, "indexes")
}

/// The address the HTTP server listens on (`HTTPSERVER_BIND_URI`, default
/// `127.0.0.1:8500`).
pub fn httpserver_bind_uri(value: Option<String>) -> (r: String)
    ensures
        r@ == setting_or(value, "127.0.0.1:8500"@),
{
    value_or(value, "127.0.0.1:8500")
}

/// The number of database connections (`POSTGRES_CONNECTIONS`, default `64`);
/// `None` where the setting is not a `u32`.
pub fn postgres_connections(value: Option<String>) -> (r: Option<u32>)
    ensures
        r matches Some(n) ==> parse_bounded_spec(setting_or(value, "64"@), u32::MAX as nat) == Some(
            n as nat,
        ),
        r is None ==> parse_bounded_spec(setting_or(value, "64"@), u32::MAX as nat) is None,
{
    let text = value_or(value, "64");
    parse_u32(text.as_str())
}

/// The capacity of the event bus (`BUS_SIZE`, default `1024`); `None` where the
/// setting is not a `usize`.
pub fn bus_size(value: Option<String>) -> (r: Option<usize>)
    ensures
        r matches Some(n) ==> parse_bounded_spec(setting_or(value, "1024"@), usize::MAX as nat)
            == Some(n as nat),
        r is None ==> parse_bounded_spec(setting_or(value, "1024"@), usize::MAX as nat) is None,
{
    let text = value_or(value, "1024");
    parse_usize(text.as_str())
}

} // verus!
