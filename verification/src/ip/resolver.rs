use crate::error::SystemError;
use std::collections::VecDeque;
use vstd::prelude::*;

verus! {

/// The service that a query asks for.
pub enum Service {
    /// A port, by its number.
    Port(u16),
    /// A service or a port, by its name.
    Name(String),
}

/// The service that a query asks for, as a mathematical value.
pub enum ServiceView {
    Port(u16),
    Name(Seq<char>),
}

impl View for Service {
    type V = ServiceView;

    open spec fn view(&self) -> ServiceView {
        match self {
            Service::Port(port) => ServiceView::Port(*port),
            Service::Name(name) => ServiceView::Name(name@),
        }
    }
}

/// What is asked of the name service, as a mathematical value.
pub struct QueryView {
    pub family: i32,
    pub host: Seq<char>,
    pub service: ServiceView,
    pub flags: i32,
}

/// What is asked of the name service: the endpoints of `service` on `host`,
/// in the address family `family`, under `flags`.
pub struct Query {
    pub family: i32,
    pub host: String,
    pub service: Service,
    pub flags: i32,
}

impl View for Query {
    type V = QueryView;

    open spec fn view(&self) -> QueryView {
        QueryView {
            family: self.family,
            host: self.host@,
            service: self.service@,
            flags: self.flags,
        }
    }
}

/// A query to be passed to a resolver.
pub trait ResolverQuery: Sized {
    /// What the query asks of the name service.
    spec fn asks(self) -> QueryView;

    /// What the query asks of the name service.
    fn iter(self) -> (query: Query)
        ensures
            query@ == self.asks(),
    ;
}

/// A query of the resolver for the passive mode.
pub struct Passive;

/// The endpoints that a query produced, each of them once, in the order in
/// which the name service gave them.
pub struct ResolverIter<E> {
    rest: VecDeque<E>,
}

impl<E> View for ResolverIter<E> {
    type V = Seq<E>;

    /// The endpoints that are still to come, the next one first.
    closed spec fn view(&self) -> Seq<E> {
        self.rest@
    }
}

impl<E> ResolverIter<E> {
    /// The iterator over `endpoints`.
    pub fn new(endpoints: VecDeque<E>) -> (it: Self)
        ensures
            it@ == endpoints@,
    {
        ResolverIter { rest: endpoints }
    }

    /// How many endpoints are still to come.
    pub fn len(&self) -> (n: usize)
        ensures
            n == self@.len(),
    {
        self.rest.len()
    }

    /// The next endpoint, if one is left.
    pub fn next(&mut self) -> (ep: Option<E>)
        ensures
            match ep {
                Some(e) => old(self)@.len() > 0 && e == old(self)@[0] && final(self)@ == old(
                    self,
                )@.drop_first(),
                None => old(self)@.len() == 0 && final(self)@ == old(self)@,
            },
    {
        self.rest.pop_front()
    }
}

/// What a connection by name does next.
pub enum ConnectStep<E> {
    /// Open a socket for this endpoint and try to connect it, and come back
    /// with the result.
    Attempt(E),
    /// The endpoint that was tried last is connected.
    Connected,
    /// No connection was made, for this reason.
    Failed(SystemError),
}

/// The next endpoint of `rest` as what to try, or `ServiceNotFound` where
/// none is left.
pub open spec fn try_next<E>(rest: Seq<E>) -> ConnectStep<E> {
    if rest.len() > 0 {
        ConnectStep::Attempt(rest[0])
    } else {
        ConnectStep::Failed(SystemError::ServiceNotFound)
    }
}

/// The next step of a blocking connection: it tries the first endpoint and
/// stands by what comes of it.
pub open spec fn connect_step<E>(rest: Seq<E>, last: Option<Result<(), SystemError>>) -> ConnectStep<
    E,
> {
    match last {
        None => try_next(rest),
        Some(Ok(())) => ConnectStep::Connected,
        Some(Err(err)) => ConnectStep::Failed(err),
    }
}

/// The next step of an asynchronous connection: it tries one endpoint after
/// the other until one connects, and fails with `ServiceNotFound` when none
/// is left.
pub open spec fn async_connect_step<E>(
    rest: Seq<E>,
    last: Option<Result<(), SystemError>>,
) -> ConnectStep<E> {
    match last {
        Some(Ok(())) => ConnectStep::Connected,
        _ => try_next(rest),
    }
}

/// Whether a step takes an endpoint from the iterator.
pub open spec fn takes_endpoint<E>(step: ConnectStep<E>) -> bool {
    step is Attempt
}

/// A resolver for the protocol `P`.
pub struct Resolver<P> {
    pro: P,
}

impl<P> Resolver<P> {
    /// The protocol that the resolver resolves for.
    pub closed spec fn protocol(&self) -> P {
        self.pro
    }

    pub fn new(pro: P) -> (re: Self)
        ensures
            re.protocol() == pro,
    {
        Resolver { pro }
    }

    /// What `query` asks of the name service.
    pub fn resolve<Q: ResolverQuery>(&self, query: Q) -> (asked: Query)
        ensures
            asked@ == query.asks(),
    {
        query.iter()
    }

    /// The next step of a blocking connection to the endpoints of `it`.
    /// `last` is what came of the attempt that was made last, if one was
    /// made.
    pub fn connect<E>(&self, it: &mut ResolverIter<E>, last: Option<Result<(), SystemError>>) -> (step:
        ConnectStep<E>)
        ensures
            step == connect_step(old(it)@, last),
            final(it)@ == if takes_endpoint(step) {
                old(it)@.drop_first()
            } else {
                old(it)@
            },
    {
        match last {
            None => match it.next() {
                Some(ep) => ConnectStep::Attempt(ep),
                None => ConnectStep::Failed(SystemError::ServiceNotFound),
            },
            Some(Ok(())) => ConnectStep::Connected,
            Some(Err(err)) => ConnectStep::Failed(err),
        }
    }

    /// The next step of an asynchronous connection to the endpoints of `it`.
    /// `last` is what came of the attempt that was made last, if one was
    /// made.
    pub fn async_connect<E>(
        &self,
        it: &mut ResolverIter<E>,
        last: Option<Result<(), SystemError>>,
    ) -> (step: ConnectStep<E>)
        ensures
            step == async_connect_step(old(it)@, last),
            final(it)@ == if takes_endpoint(step) {
                old(it)@.drop_first()
            } else {
                old(it)@
            },
    {
        match last {
            Some(Ok(())) => ConnectStep::Connected,
            _ => match it.next() {
                Some(ep) => ConnectStep::Attempt(ep),
                None => ConnectStep::Failed(SystemError::ServiceNotFound),
            },
        }
    }
}

} // verus!
