//! The status page's address and routes.
use vstd::prelude::*;
use vstd::string::*;
use crate::text::{decimal_digits, push_decimal, same_text};

verus! {

/// The pages the listener serves.
#[derive(Debug, Clone, Copy, PartialEq, Eq, Structural)]
pub enum Page {
    /// `/`: an empty page that answers liveness probes.
    Root,
    /// `/status`: says that the server runs.
    Status,
    /// `/dashboard`: the human-readable status page.
    Dashboard,
}

/// The body of the `/status` page.
pub const STATUS_BODY: &'static str = "Server is running";

/// The page served at `path`, if any.
pub open spec fn page_for(path: Seq<char>) -> Option<Page> {
    if path == "/"@ {
        Some(Page::Root)
    } else if path == "/status"@ {
        Some(Page::Status)
    } else if path == "/dashboard"@ {
        Some(Page::Dashboard)
    } else {
        None
    }
}

/// The page served at `path`, if any.
pub fn route(path: &str) -> (r: Option<Page>)
    ensures
        r == page_for(path@),
{
    if same_text(path, "/") {
        Some(Page::Root)
    } else if same_text(path, "/status") {
        Some(Page::Status)
    } else if same_text(path, "/dashboard") {
        Some(Page::Dashboard)
    } else {
        None
    }
}

/// The listener of the status page.
#[derive(Debug, Clone)]
pub struct WebServerAdapter {
    pub host: String,
    pub port: u16,
}

impl WebServerAdapter {
    /// A listener on `host`, port `port`.
    pub fn new(host: String, port: u16) -> (r: WebServerAdapter)
        ensures
            r.host == host,
            r.port == port,
    {
        WebServerAdapter { host, port }
    }

    /// The address to bind: host, colon, port.
    pub fn bind_address(&self) -> (r: String)
        ensures
            r@ == self.host@ + ":"@ + decimal_digits(self.port as nat),
    {
        let mut address = self.host.clone();
        address.append(":");
        push_decimal(&mut address, self.port as u64);
        address
    }
}

} // verus!
