use crate::ip::resolver::{Passive, Query, QueryView, ResolverQuery, Service, ServiceView};
use crate::sys::{AF_INET, AF_INET6, AF_UNSPEC, AI_NUMERICSERV, AI_PASSIVE, IPPROTO_UDP, SOCK_DGRAM};
use vstd::prelude::*;

verus! {

/// The User Datagram Protocol.
#[derive(Clone, Copy, Debug, PartialEq, Eq, PartialOrd, Ord, Structural)]
pub struct Udp {
    family: i32,
}

impl Udp {
    /// The address family of the protocol.
    pub closed spec fn family(self) -> i32 {
        self.family
    }

    /// Represents a UDP for IPv4.
    pub fn v4() -> (pro: Udp)
        ensures
            pro.family() == AF_INET,
    {
        Udp { family: AF_INET }
    }

    /// Represents a UDP for IPv6.
    pub fn v6() -> (pro: Udp)
        ensures
            pro.family() == AF_INET6,
    {
        Udp { family: AF_INET6 }
    }

    pub fn family_type(&self) -> (family: i32)
        ensures
            family == self.family(),
    {
        self.family
    }

    pub fn socket_type(&self) -> (kind: i32)
        ensures
            kind == SOCK_DGRAM,
    {
        SOCK_DGRAM
    }

    pub fn protocol_type(&self) -> (protocol: i32)
        ensures
            protocol == IPPROTO_UDP,
    {
        IPPROTO_UDP
    }

    /// The name of the protocol: `Udp` for IPv4 and `Udp6` for IPv6.
    pub fn to_string(&self) -> (name: String)
        requires
            self.family() == AF_INET || self.family() == AF_INET6,
        ensures
            name@ == if self.family() == AF_INET {
                "Udp"@
            } else {
                "Udp6"@
            },
    {
        if self.family == AF_INET {
            "Udp".to_owned()
        } else {
            "Udp6".to_owned()
        }
    }
}

/// Two protocols are the same where their address families are.
pub proof fn lemma_udp_by_family(a: Udp, b: Udp)
    ensures
        a == b <==> a.family() == b.family(),
{
}

/// The endpoints of the service `self.2` on the host `self.1`, in the address
/// family of the protocol `self.0`.
impl<'a, 'b> ResolverQuery for (Udp, &'a str, &'b str) {
    open spec fn asks(self) -> QueryView {
        QueryView {
            family: self.0.family(),
            host: self.1@,
            service: ServiceView::Name(self.2@),
            flags: 0,
        }
    }

    fn iter(self) -> (query: Query) {
        Query {
            family: self.0.family,
            host: self.1.to_owned(),
            service: Service::Name(self.2.to_owned()),
            flags: 0,
        }
    }
}

/// The endpoints to bind to for the port `self.1`, in any address family.
impl ResolverQuery for (Passive, u16) {
    open spec fn asks(self) -> QueryView {
        QueryView {
            family: AF_UNSPEC,
            host: Seq::empty(),
            service: ServiceView::Port(self.1),
            flags: AI_PASSIVE | AI_NUMERICSERV,
        }
    }

    fn iter(self) -> (query: Query) {
        Query {
            family: AF_UNSPEC,
            host: String::new(),
            service: Service::Port(self.1),
            flags: AI_PASSIVE | AI_NUMERICSERV,
        }
    }
}

/// The endpoints to bind to for the service `self.1`, in any address family.
impl<'a> ResolverQuery for (Passive, &'a str) {
    open spec fn asks(self) -> QueryView {
        QueryView {
            family: AF_UNSPEC,
            host: Seq::empty(),
            service: ServiceView::Name(self.1@),
            flags: AI_PASSIVE,
        }
    }

    fn iter(self) -> (query: Query) {
        Query {
            family: AF_UNSPEC,
            host: String::new(),
            service: Service::Name(self.1.to_owned()),
            flags: AI_PASSIVE,
        }
    }
}

/// The endpoints of the service `self.1` on the host `self.0`, in any
/// address family.
impl<'a, 'b> ResolverQuery for (&'a str, &'b str) {
    open spec fn asks(self) -> QueryView {
        QueryView {
            family: AF_UNSPEC,
            host: self.0@,
            service: ServiceView::Name(self.1@),
            flags: 0,
        }
    }

    fn iter(self) -> (query: Query) {
        Query {
            family: AF_UNSPEC,
            host: self.0.to_owned(),
            service: Service::Name(self.1.to_owned()),
            flags: 0,
        }
    }
}

} // verus!
