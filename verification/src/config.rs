//! The settings of the bridge: which device it talks to, under which
//! address it is reached, and how often its timer fires.

use crate::decimal::{decimal_numeral, push_decimal_numeral};
use vstd::prelude::*;

verus! {

/// The port on which the service listens.
pub const LISTEN_PORT: u16 = 3000;

/// The seconds between two ticks of the timer.
pub const TICK_SECONDS: u64 = 1;

/// The name of the device that is used where none is configured.
pub open spec fn default_device() -> Seq<char> {
    "vcan0"@
}

/// The name of the device to open: the configured one, or the default.
pub fn device_name(configured: Option<String>) -> (name: String)
    ensures
        name@ == match configured {
            Some(value) => value@,
            None => default_device(),
        },
{
    match configured {
        Some(value) => value,
        None => "vcan0".to_owned(),
    }
}

/// The address of the service on `host`: `http://`, the host, a colon and
/// the port.
pub open spec fn service_url_spec(host: Seq<char>, port: u16) -> Seq<char> {
    "http://"@ + host + ":"@ + decimal_numeral(port as nat)
}

/// The address under which a client reaches the service on `host`.
pub fn service_url(host: &str, port: u16) -> (url: String)
    ensures
        url@ == service_url_spec(host@, port),
{
    let mut url = String::new();
    url.append("http://");
    url.append(host);
    url.append(":");
    push_decimal_numeral(&mut url, port as u64);
    url
}

} // verus!
