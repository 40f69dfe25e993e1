//! Answers to identity queries: a redirected descriptor reports itself as the
//! IPv4 socket its owner asked for.

use vstd::prelude::*;
use crate::address::{
    inet_view, AddressView, SocketAddress, AF_INET, INET_ADDRESS_SIZE, LOOPBACK_HOST,
    WILDCARD_HOST,
};
use crate::config::{Config, ConfigView};
use crate::tracker::ConvertedSockets;

verus! {

/// The option level of the socket layer itself.
pub const SOL_SOCKET: i32 = 1;

/// The socket-level option that reads a socket's address family.
pub const SO_DOMAIN: i32 = 39;

/// Size in bytes of the value of an integer option.
pub const INT_OPTION_SIZE: u32 = 4;

/// The result of a query that was answered.
pub const SUCCESS: i32 = 0;

/// What to do with an address query.
#[derive(Debug, PartialEq, Eq)]
pub enum NameReply {
    /// Hand the call to the native implementation with the caller's own
    /// arguments and return what it returns.
    Delegate,
    /// Store `address` in the caller's address buffer and `length` in its
    /// length field, and return `result`.
    Answer { address: SocketAddress, length: u32, result: i32 },
}

/// What a `NameReply` stands for in contracts.
pub enum NameReplyView {
    Delegate,
    Answer { address: AddressView, length: u32, result: i32 },
}

impl View for NameReply {
    type V = NameReplyView;

    open spec fn view(&self) -> NameReplyView {
        match *self {
            NameReply::Delegate => NameReplyView::Delegate,
            NameReply::Answer { address, length, result } => NameReplyView::Answer {
                address: address@,
                length,
                result,
            },
        }
    }
}

/// What to do with an option query.
#[derive(Clone, Copy, Debug, PartialEq, Eq, Structural)]
pub enum OptionReply {
    /// Hand the call to the native implementation with the caller's own
    /// arguments and return what it returns.
    Delegate,
    /// Store `value` in the caller's value buffer and `length` in its length
    /// field, and return `result`.
    Answer { value: i32, length: u32, result: i32 },
}

/// The IPv4 answer `host:port`: the address, the size of an IPv4 address
/// structure, and success.
pub open spec fn inet_answer(port: u16, host: u32) -> NameReplyView {
    NameReplyView::Answer {
        address: inet_view(port, host),
        length: INET_ADDRESS_SIZE,
        result: SUCCESS,
    }
}

/// The answer to a query for the address family: IPv4, the size of an
/// integer, and success.
pub open spec fn family_answer() -> OptionReply {
    OptionReply::Answer { value: AF_INET as i32, length: INT_OPTION_SIZE, result: SUCCESS }
}

/// The answer to a local-address query: a redirected descriptor whose caller
/// supplied both output buffers reports the configured port on the wildcard
/// host; every other call is delegated.
pub open spec fn spec_getsockname(
    config: ConfigView,
    converted: Set<i32>,
    fd: i32,
    address_present: bool,
    length_present: bool,
) -> NameReplyView {
    if converted.contains(fd) && address_present && length_present {
        inet_answer(config.port(), WILDCARD_HOST)
    } else {
        NameReplyView::Delegate
    }
}

/// The answer to a peer-address query: a redirected descriptor whose caller
/// supplied both output buffers reports port zero on the loopback host; every
/// other call is delegated.
pub open spec fn spec_getpeername(
    converted: Set<i32>,
    fd: i32,
    address_present: bool,
    length_present: bool,
) -> NameReplyView {
    if converted.contains(fd) && address_present && length_present {
        inet_answer(0, LOOPBACK_HOST)
    } else {
        NameReplyView::Delegate
    }
}

/// The answer to an option query: a redirected descriptor that is asked for
/// its address family, by a caller who supplied both output buffers, reports
/// IPv4; every other call is delegated.
pub open spec fn spec_getsockopt(
    converted: Set<i32>,
    fd: i32,
    level: i32,
    optname: i32,
    value_present: bool,
    length_present: bool,
) -> OptionReply {
    if converted.contains(fd) && level == SOL_SOCKET && optname == SO_DOMAIN && value_present
        && length_present {
        family_answer()
    } else {
        OptionReply::Delegate
    }
}

/// Answers a query for the local address of `fd`. The two flags say whether
/// the caller supplied an address buffer and a length field.
pub fn getsockname(
    config: &Config,
    converted: &ConvertedSockets,
    fd: i32,
    address_present: bool,
    length_present: bool,
) -> (reply: NameReply)
    ensures
        reply@ == spec_getsockname(config@, converted@, fd, address_present, length_present),
{
    if converted.is_marked(fd) && address_present && length_present {
        NameReply::Answer {
            address: SocketAddress::inet(config.port(), WILDCARD_HOST),
            length: INET_ADDRESS_SIZE,
            result: SUCCESS,
        }
    } else {
        NameReply::Delegate
    }
}

/// Answers a query for the peer address of `fd`. The two flags say whether
/// the caller supplied an address buffer and a length field.
pub fn getpeername(
    converted: &ConvertedSockets,
    fd: i32,
    address_present: bool,
    length_present: bool,
) -> (reply: NameReply)
    ensures
        reply@ == spec_getpeername(converted@, fd, address_present, length_present),
{
    if converted.is_marked(fd) && address_present && length_present {
        NameReply::Answer {
            address: SocketAddress::inet(0, LOOPBACK_HOST),
            length: INET_ADDRESS_SIZE,
            result: SUCCESS,
        }
    } else {
        NameReply::Delegate
    }
}

/// Answers a query for option `optname` at `level` of `fd`. The two flags say
/// whether the caller supplied a value buffer and a length field.
pub fn getsockopt(
    converted: &ConvertedSockets,
    fd: i32,
    level: i32,
    optname: i32,
    value_present: bool,
    length_present: bool,
) -> (reply: OptionReply)
    ensures
        reply == spec_getsockopt(converted@, fd, level, optname, value_present, length_present),
{
    if converted.is_marked(fd) && level == SOL_SOCKET && optname == SO_DOMAIN && value_present
        && length_present {
        OptionReply::Answer { value: AF_INET as i32, length: INT_OPTION_SIZE, result: SUCCESS }
    } else {
        OptionReply::Delegate
    }
}

} // verus!
