//! Discovery of UPnP devices: the SSDP search request.

use vstd::prelude::*;
use crate::http::{HttpHeaders, HeaderEntries, add_header};

verus! {

/// The UPnP discovery service.
pub struct DiscoverUpnp {}

/// The headers of the SSDP `M-SEARCH` request.
pub open spec fn msearch_entries() -> HeaderEntries {
    add_header(
        add_header(
            add_header(add_header(Seq::empty(), "HOST"@, "239.255.255.250:1900"@), "MAN"@, "\"ssdp:discover\""@),
            "MX"@,
            "10"@,
        ),
        "ST"@,
        "ssdp:all"@,
    )
}

impl DiscoverUpnp {
    pub fn new() -> (r: Self) {
        DiscoverUpnp {}
    }

    /// The headers of the SSDP `M-SEARCH` request the service multicasts:
    /// the multicast address, the discover method, a wait of 10 seconds,
    /// all search targets.
    pub fn msearch_headers() -> (r: HttpHeaders)
        ensures
            r@.0 == msearch_entries(),
    {
        let mut req = HttpHeaders::new();
        req.header("HOST", "239.255.255.250:1900");
        req.header("MAN", "\"ssdp:discover\"");
        req.header("MX", "10");
        req.header("ST", "ssdp:all");
        req
    }
}

} // verus!
