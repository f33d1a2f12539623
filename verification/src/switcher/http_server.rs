//! The settings of the switcher's HTTP server, what it registers, and
//! which registered service a request goes to.

use vstd::prelude::*;
use vstd::string::StrSliceExecFns;
use vstd::utf8::encode_utf8;
use crate::switcher::SwServerData;
use crate::switcher::mqtt_server::{host_and_addr, host_of, listen_addr, port_or};

verus! {

/// The HTTP server's settings: its name, and the address and port it
/// listens on (by default the system's address and 80).
pub struct SwServerHttp {
    pub id: String,
    pub ip: Option<String>,
    pub port: Option<u16>,
}

impl SwServerHttp {
    /// What the server registers about itself, and the address it binds,
    /// given the system's address.
    pub fn server_data(&self, default_ip: &str) -> (r: (SwServerData, String))
        ensures
            r.0 matches SwServerData::Http { host, port } && host@ == host_of(self.ip, default_ip@)
                && port == port_or(self.port, 80),
            r.1@ == listen_addr(host_of(self.ip, default_ip@), port_or(self.port, 80)),
    {
        let port = match self.port {
            Some(p) => p,
            None => 80,
        };
        let (host, addr) = host_and_addr(&self.ip, default_ip, port);
        (SwServerData::Http { host, port }, addr)
    }
}

/// Whether `p` begins with `prefix`.
pub open spec fn starts_with(p: Seq<u8>, prefix: Seq<u8>) -> bool {
    p.len() >= prefix.len() && p.subrange(0, prefix.len() as int) == prefix
}

/// The first registered service whose path begins the request's path; none
/// for an empty path.
pub open spec fn first_service(services: Seq<(Seq<u8>, usize)>, path: Seq<u8>) -> Option<usize>
    decreases services.len(),
{
    if path.len() == 0 || services.len() == 0 {
        None
    } else if starts_with(path, services[0].0) {
        Some(services[0].1)
    } else {
        first_service(services.drop_first(), path)
    }
}

/// The services registered with the HTTP server: each path prefix with the
/// service that serves it, in the order they registered.
pub struct HttpRoutes {
    pub services: Vec<(String, usize)>,
}

/// The model of the routes: each path's bytes with its service.
pub open spec fn routes_view(s: Seq<(String, usize)>) -> Seq<(Seq<u8>, usize)> {
    s.map_values(|e: (String, usize)| (encode_utf8(e.0@), e.1))
}

fn bytes_start_with(p: &[u8], prefix: &[u8]) -> (r: bool)
    ensures
        r == starts_with(p@, prefix@),
{
    if p.len() < prefix.len() {
        return false;
    }
    let mut i: usize = 0;
    while i < prefix.len()
        invariant
            i <= prefix@.len() <= p@.len(),
            forall|j: int| 0 <= j < i ==> p@[j] == prefix@[j],
        decreases prefix@.len() - i,
    {
        if p[i] != prefix[i] {
            proof {
                assert(p@.subrange(0, prefix@.len() as int)[i as int] != prefix@[i as int]);
            }
            return false;
        }
        i += 1;
    }
    proof {
        assert(p@.subrange(0, prefix@.len() as int) =~= prefix@);
    }
    true
}

impl HttpRoutes {
    /// No service yet.
    pub fn new() -> (r: Self)
        ensures
            r.services@.len() == 0,
    {
        HttpRoutes { services: Vec::new() }
    }

    /// Registers a service for the requests whose path begins with `path`,
    /// after those registered before.
    pub fn register(&mut self, path: String, service_id: usize)
        ensures
            routes_view(final(self).services@) == routes_view(old(self).services@).push(
                (encode_utf8(path@), service_id),
            ),
    {
        let ghost p = path@;
        self.services.push((path, service_id));
        proof {
            assert(routes_view(self.services@) =~= routes_view(old(self).services@).push((encode_utf8(p), service_id)));
        }
    }

    /// The service a request's path goes to, as `first_service` says.
    pub fn service_for(&self, path: &str) -> (r: Option<usize>)
        ensures
            r == first_service(routes_view(self.services@), encode_utf8(path@)),
    {
        let pb = path.as_bytes_vec();
        if pb.len() == 0 {
            return None;
        }
        let mut i: usize = 0;
        proof {
            assert(routes_view(self.services@).skip(0) =~= routes_view(self.services@));
        }
        while i < self.services.len()
            invariant
                i <= self.services@.len(),
                pb@ == encode_utf8(path@),
                pb@.len() > 0,
                first_service(routes_view(self.services@), pb@) == first_service(
                    routes_view(self.services@).skip(i as int),
                    pb@,
                ),
            decreases self.services@.len() - i,
        {
            let prefix = self.services[i].0.as_str().as_bytes_vec();
            proof {
                assert(routes_view(self.services@).skip(i as int)[0] == (prefix@, self.services@[i as int].1));
                assert(routes_view(self.services@).skip(i as int).drop_first() =~= routes_view(
                    self.services@,
                ).skip(i + 1));
            }
            if bytes_start_with(pb.as_slice(), prefix.as_slice()) {
                return Some(self.services[i].1);
            }
            i += 1;
        }
        proof {
            assert(routes_view(self.services@).skip(i as int).len() == 0);
        }
        None
    }
}

} // verus!
