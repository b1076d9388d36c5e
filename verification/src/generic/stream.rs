use crate::sys::SOCK_STREAM;
use vstd::prelude::*;

verus! {

/// A stream protocol that is given by its numbers.
#[derive(Clone, Copy, Debug, PartialEq, Eq, Structural)]
pub struct GenericStream {
    pub family: i32,
    pub protocol: i32,
    pub capacity: u32,
}

impl GenericStream {
    /// The stream protocol `protocol` of the address family `family`, whose
    /// addresses take up to `capacity` bytes.
    pub fn new(family: i32, protocol: i32, capacity: u32) -> (pro: Self)
        ensures
            pro == (GenericStream { family, protocol, capacity }),
    {
        GenericStream { family, protocol, capacity }
    }

    pub fn family_type(&self) -> (family: i32)
        ensures
            family == self.family,
    {
        self.family
    }

    pub fn socket_type(&self) -> (kind: i32)
        ensures
            kind == SOCK_STREAM,
    {
        SOCK_STREAM
    }

    pub fn protocol_type(&self) -> (protocol: i32)
        ensures
            protocol == self.protocol,
    {
        self.protocol
    }

    /// How many bytes an address of the protocol takes at most.
    pub fn capacity(&self) -> (capacity: u32)
        ensures
            capacity == self.capacity,
    {
        self.capacity
    }
}

/// An endpoint of a protocol that is given by its numbers: the address
/// family that its address names, the protocol, and how many of the bytes
/// that it has room for are in use.
#[derive(Clone, Copy, Debug, PartialEq, Eq, Structural)]
pub struct GenericEndpoint {
    pub family: i32,
    pub protocol: i32,
    pub capacity: u32,
    pub size: u32,
}

impl GenericEndpoint {
    /// The endpoint holds no more bytes than it has room for.
    pub open spec fn wf(self) -> bool {
        self.size <= self.capacity
    }

    /// An endpoint of `protocol` with room for `capacity` bytes, all of them
    /// in use, whose address names no family yet.
    pub fn new(capacity: u32, protocol: i32) -> (ep: Self)
        ensures
            ep == (GenericEndpoint { family: 0, protocol, capacity, size: capacity }),
            ep.wf(),
    {
        GenericEndpoint { family: 0, protocol, capacity, size: capacity }
    }

    /// The protocol of the endpoint.
    pub fn protocol(&self) -> (pro: GenericStream)
        ensures
            pro == (GenericStream {
                family: self.family,
                protocol: self.protocol,
                capacity: self.capacity,
            }),
    {
        GenericStream { family: self.family, protocol: self.protocol, capacity: self.capacity }
    }

    /// How many bytes the endpoint has room for.
    pub fn capacity(&self) -> (capacity: u32)
        ensures
            capacity == self.capacity,
    {
        self.capacity
    }

    /// How many bytes of the endpoint are in use.
    pub fn size(&self) -> (size: u32)
        ensures
            size == self.size,
    {
        self.size
    }

    /// Sets how many bytes of the endpoint are in use.
    pub fn resize(&mut self, size: u32)
        requires
            size <= old(self).capacity,
        ensures
            *final(self) == (GenericEndpoint { size, ..*old(self) }),
            final(self).wf(),
    {
        self.size = size;
    }
}

impl GenericStream {
    /// An endpoint of the protocol whose address is still to be filled in.
    pub fn uninitialized(&self) -> (ep: GenericEndpoint)
        ensures
            ep == (GenericEndpoint {
                family: 0,
                protocol: self.protocol,
                capacity: self.capacity,
                size: self.capacity,
            }),
    {
        GenericEndpoint::new(self.capacity, self.protocol)
    }
}

} // verus!
