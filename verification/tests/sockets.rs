use asyncio::error::SystemError;
use asyncio::executor::{IoContext, ThreadIoContext};
use asyncio::generic::stream::GenericStream;
use asyncio::reactor::epoll::{
    EpollCtl, EpollReactor, EPOLLET, EPOLLIN, EPOLLOUT, EPOLL_CTL_ADD, EPOLL_CTL_DEL,
};
use asyncio::reactor::intr::Intr;
use asyncio::sys::{
    AF_INET, AF_INET6, AF_UNSPEC, AI_NUMERICSERV, AI_PASSIVE, IPPROTO_UDP, SOCK_DGRAM,
    SOCK_STREAM,
};
use asyncio::timeout::Timeout;

fn reactor() -> EpollReactor<u32> {
    EpollReactor::new(3, Intr::new(4, 5))
}

#[test]
fn socket_numbers_are_the_systems() {
    assert_eq!(AF_UNSPEC, libc::AF_UNSPEC);
    assert_eq!(AF_INET, libc::AF_INET);
    assert_eq!(AF_INET6, libc::AF_INET6);
    assert_eq!(SOCK_STREAM, libc::SOCK_STREAM);
    assert_eq!(SOCK_DGRAM, libc::SOCK_DGRAM);
    assert_eq!(IPPROTO_UDP, libc::IPPROTO_UDP);
    assert_eq!(AI_PASSIVE, libc::AI_PASSIVE);
    assert_eq!(AI_NUMERICSERV, libc::AI_NUMERICSERV);
}

#[test]
fn timeouts() {
    assert_eq!(Timeout::default(), Timeout { millis: 0 });
    assert_eq!(Timeout::max(), Timeout { millis: u32::MAX });
}

#[test]
fn generic_stream_numbers() {
    let pro = GenericStream::new(AF_INET, 6, 16);
    assert_eq!(pro.family_type(), AF_INET);
    assert_eq!(pro.socket_type(), SOCK_STREAM);
    assert_eq!(pro.protocol_type(), 6);
    assert_eq!(pro.capacity(), 16);
    assert_eq!(pro, GenericStream { family: AF_INET, protocol: 6, capacity: 16 });
}

#[test]
fn socket_with_three_deadlines() {
    let mut re = reactor();
    let mut this = ThreadIoContext::new(IoContext::new());
    let mut ctx = IoContext::new();
    let (mut soc, request) = asyncio::socket_impl::SocketImpl::new(&mut re, 9, "data");
    assert_eq!(
        request,
        EpollCtl { epfd: 3, op: EPOLL_CTL_ADD, fd: 9, events: EPOLLIN | EPOLLOUT | EPOLLET }
    );
    assert!(re.is_registered(9));
    assert_eq!(soc.as_raw_fd(), 9);
    assert_eq!(soc.data, "data");
    assert_eq!(*soc.get_connect_timeout(), Timeout::default());
    assert_eq!(*soc.get_read_timeout(), Timeout::default());
    assert_eq!(*soc.get_write_timeout(), Timeout::default());
    soc.add_read_op(&re, &mut this, 1, SystemError::Success);
    soc.add_read_op(&re, &mut this, 2, SystemError::Success);
    soc.add_write_op(&re, &mut this, 3, SystemError::Success);
    soc.add_write_op(&re, &mut this, 4, SystemError::Success);
    assert_eq!(this.take_pending(), vec![(1, SystemError::Success), (3, SystemError::Success)]);
    soc.next_write_op(&re, &mut this);
    assert_eq!(this.take_pending(), vec![(4, SystemError::Success)]);
    soc.add_write_op(&re, &mut this, 4, SystemError::WouldBlock);
    soc.cancel(&re, &mut ctx);
    assert_eq!(ctx.take_posted(), vec![(4, SystemError::OperationCanceled)]);
    assert_eq!(soc.handle().input().len(), 1);
    soc.next_read_op(&re, &mut this);
    assert_eq!(this.take_pending(), vec![(2, SystemError::OperationCanceled)]);
    let (request, fd) = soc.close(&mut re);
    assert_eq!(request, EpollCtl { epfd: 3, op: EPOLL_CTL_DEL, fd: 9, events: 0 });
    assert_eq!(fd, 9);
    assert!(!re.is_registered(9));
}

#[test]
fn socket_with_one_deadline() {
    let mut re = reactor();
    let mut this = ThreadIoContext::new(IoContext::new());
    let mut ctx = IoContext::new();
    let (mut soc, request) = asyncio::reactor::socket_impl::SocketImpl::new(&mut re, 12, 7u8);
    assert_eq!(
        request,
        EpollCtl { epfd: 3, op: EPOLL_CTL_ADD, fd: 12, events: EPOLLIN | EPOLLOUT | EPOLLET }
    );
    assert_eq!(soc.timeout, Timeout::max());
    assert_eq!(soc.data, 7);
    assert_eq!(soc.as_raw_fd(), 12);
    soc.add_write_op(&re, &mut this, 1, SystemError::Success);
    soc.add_read_op(&re, &mut this, 2, SystemError::Success);
    assert_eq!(this.take_pending(), vec![(1, SystemError::Success), (2, SystemError::Success)]);
    soc.next_read_op(&re, &mut this);
    soc.next_write_op(&re, &mut this);
    assert!(this.take_pending().is_empty());
    assert!(!soc.handle().input().is_blocked());
    soc.cancel(&re, &mut ctx);
    assert!(ctx.take_posted().is_empty());
    assert!(soc.handle().input().is_canceled());
    let (request, fd) = soc.close(&mut re);
    assert_eq!(request, EpollCtl { epfd: 3, op: EPOLL_CTL_DEL, fd: 12, events: 0 });
    assert_eq!(fd, 12);
}

#[test]
fn generic_endpoint_sizes() {
    let pro = GenericStream::new(AF_INET6, 0, 28);
    let mut ep = pro.uninitialized();
    assert_eq!(ep.capacity(), 28);
    assert_eq!(ep.size(), 28);
    ep.family = AF_INET6;
    ep.resize(16);
    assert_eq!(ep.size(), 16);
    assert_eq!(ep.capacity(), 28);
    assert_eq!(ep.protocol(), pro);
}

#[test]
fn expired_deadline_cancels_with_timed_out() {
    let mut re = reactor();
    let mut this = ThreadIoContext::new(IoContext::new());
    let mut ctx = IoContext::new();
    let (mut soc, _) = asyncio::socket_impl::SocketImpl::new(&mut re, 9, ());
    soc.add_read_op(&re, &mut this, 1, SystemError::Success);
    soc.add_read_op(&re, &mut this, 1, SystemError::WouldBlock);
    soc.expire(&re, &mut ctx);
    assert_eq!(ctx.take_posted(), vec![(1, SystemError::TimedOut)]);
    let (mut soc, _) = asyncio::reactor::socket_impl::SocketImpl::new(&mut re, 10, ());
    soc.add_write_op(&re, &mut this, 2, SystemError::Success);
    soc.add_write_op(&re, &mut this, 2, SystemError::WouldBlock);
    soc.expire(&re, &mut ctx);
    assert_eq!(ctx.take_posted(), vec![(2, SystemError::TimedOut)]);
}
