//! Socket addresses as the kernel lays them out: a family number followed by
//! family-specific bytes in memory order.

use vstd::prelude::*;

verus! {

/// Family number of Unix domain sockets.
pub const AF_UNIX: u16 = 1;

/// Family number of IPv4 sockets.
pub const AF_INET: u16 = 2;

/// Bytes that follow the family in an IPv4 address: port, host, padding.
pub const INET_DATA_LEN: usize = 14;

/// Bytes that follow the family in a Unix address: the path field.
pub const UNIX_DATA_LEN: usize = 108;

/// Longest path that still leaves room for the terminating zero byte.
pub const MAX_PATH_LEN: usize = 107;

/// Size in bytes of a whole IPv4 address structure.
pub const INET_ADDRESS_SIZE: u32 = 16;

/// Size in bytes of a whole Unix address structure.
pub const UNIX_ADDRESS_SIZE: u32 = 110;

/// The wildcard host, 0.0.0.0.
pub const WILDCARD_HOST: u32 = 0;

/// The loopback host, 127.0.0.1.
pub const LOOPBACK_HOST: u32 = 0x7f00_0001;

/// A socket address: the family and the bytes that follow it.
///
/// For IPv4 the bytes are the port at offset 0 and the host at offset 2, both
/// most significant byte first, then eight zero bytes. For Unix sockets they
/// are the path, padded with zero bytes to the full path field.
#[derive(Debug, PartialEq, Eq)]
pub struct SocketAddress {
    pub family: u16,
    pub data: Vec<u8>,
}

/// What a `SocketAddress` stands for in contracts.
pub struct AddressView {
    pub family: u16,
    pub data: Seq<u8>,
}

impl View for SocketAddress {
    type V = AddressView;

    open spec fn view(&self) -> AddressView {
        AddressView { family: self.family, data: self.data@ }
    }
}

impl Clone for SocketAddress {
    fn clone(&self) -> (copy: SocketAddress)
        ensures
            copy@ == self@,
    {
        SocketAddress {
            family: self.family,
            data: vstd::slice::slice_to_vec(self.data.as_slice()),
        }
    }
}

/// The two bytes of `value`, most significant first.
pub open spec fn be16(value: u16) -> Seq<u8> {
    seq![(value / 256) as u8, (value % 256) as u8]
}

/// The four bytes of `value`, most significant first.
pub open spec fn be32(value: u32) -> Seq<u8> {
    seq![
        (value / 0x100_0000) as u8,
        (value / 0x1_0000 % 256) as u8,
        (value / 0x100 % 256) as u8,
        (value % 256) as u8,
    ]
}

/// The number whose big-endian bytes start at `at`, `width` bytes wide.
pub open spec fn be_value(data: Seq<u8>, at: int, width: nat) -> nat
    decreases width,
{
    if width == 0 {
        0
    } else {
        be_value(data, at, (width - 1) as nat) * 256 + data[at + width - 1] as nat
    }
}

/// `count` zero bytes.
pub open spec fn zeros(count: nat) -> Seq<u8> {
    Seq::new(count, |i: int| 0u8)
}

/// The IPv4 address `host:port`.
pub open spec fn inet_view(port: u16, host: u32) -> AddressView {
    AddressView { family: AF_INET, data: be16(port) + be32(host) + zeros(8) }
}

/// The Unix address of `path`.
pub open spec fn unix_view(path: Seq<u8>) -> AddressView {
    AddressView { family: AF_UNIX, data: path + zeros((UNIX_DATA_LEN - path.len()) as nat) }
}

/// The port an address asks for: present exactly for an IPv4 address that is
/// long enough to hold one.
pub open spec fn spec_inet_port(address: AddressView) -> Option<u16> {
    if address.family == AF_INET && address.data.len() >= 2 {
        Some(be_value(address.data, 0, 2) as u16)
    } else {
        None
    }
}

/// The host of an address: present exactly for an IPv4 address that is long
/// enough to hold one.
pub open spec fn spec_inet_host(address: AddressView) -> Option<u32> {
    if address.family == AF_INET && address.data.len() >= 6 {
        Some(be_value(address.data, 2, 4) as u32)
    } else {
        None
    }
}

impl SocketAddress {
    /// Builds the IPv4 address `host:port`.
    pub fn inet(port: u16, host: u32) -> (address: SocketAddress)
        ensures
            address@ == inet_view(port, host),
    {
        let mut data: Vec<u8> = Vec::with_capacity(INET_DATA_LEN);
        data.push((port / 256) as u8);
        data.push((port % 256) as u8);
        data.push((host / 0x100_0000) as u8);
        data.push((host / 0x1_0000 % 256) as u8);
        data.push((host / 0x100 % 256) as u8);
        data.push((host % 256) as u8);
        let mut i: usize = 0;
        while i < 8
            invariant
                i <= 8,
                data@ == be16(port) + be32(host) + zeros(i as nat),
            decreases 8 - i,
        {
            data.push(0);
            i += 1;
        }
        SocketAddress { family: AF_INET, data }
    }

    /// Builds the Unix address of `path`.
    pub fn unix(path: &[u8]) -> (address: SocketAddress)
        requires
            path@.len() <= MAX_PATH_LEN,
        ensures
            address@ == unix_view(path@),
    {
        let mut data: Vec<u8> = Vec::with_capacity(UNIX_DATA_LEN);
        let mut i: usize = 0;
        while i < path.len()
            invariant
                i <= path@.len(),
                data@ == path@.take(i as int),
            decreases path@.len() - i,
        {
            data.push(path[i]);
            i += 1;
        }
        assert(path@.take(i as int) == path@);
        while i < UNIX_DATA_LEN
            invariant
                path@.len() <= i <= UNIX_DATA_LEN,
                data@ == path@ + zeros((i - path@.len()) as nat),
            decreases UNIX_DATA_LEN - i,
        {
            data.push(0);
            i += 1;
        }
        SocketAddress { family: AF_UNIX, data }
    }

    /// The port this address asks for, in host order.
    pub fn inet_port(&self) -> (port: Option<u16>)
        ensures
            port == spec_inet_port(self@),
    {
        if self.family == AF_INET && self.data.len() >= 2 {
            let high: u16 = self.data[0] as u16;
            let low: u16 = self.data[1] as u16;
            proof {
                reveal_with_fuel(be_value, 3);
            }
            Some(high * 256 + low)
        } else {
            None
        }
    }

    /// The host this address names, in host order.
    pub fn inet_host(&self) -> (host: Option<u32>)
        ensures
            host == spec_inet_host(self@),
    {
        if self.family == AF_INET && self.data.len() >= 6 {
            let b0: u32 = self.data[2] as u32;
            let b1: u32 = self.data[3] as u32;
            let b2: u32 = self.data[4] as u32;
            let b3: u32 = self.data[5] as u32;
            proof {
                reveal_with_fuel(be_value, 5);
            }
            Some(((b0 * 256 + b1) * 256 + b2) * 256 + b3)
        } else {
            None
        }
    }
}

/// Reading an IPv4 address gives back the port and host it was built from.
pub proof fn inet_round_trip(port: u16, host: u32)
    ensures
        spec_inet_port(inet_view(port, host)) == Some(port),
        spec_inet_host(inet_view(port, host)) == Some(host),
        inet_view(port, host).data.len() == INET_DATA_LEN,
{
    reveal_with_fuel(be_value, 5);
    let data = inet_view(port, host).data;
    assert(data.len() == 14);
    assert(data[0] == (port / 256) as u8);
    assert(data[1] == (port % 256) as u8);
    assert(data[2] == (host / 0x100_0000) as u8);
    assert(data[3] == (host / 0x1_0000 % 256) as u8);
    assert(data[4] == (host / 0x100 % 256) as u8);
    assert(data[5] == (host % 256) as u8);
}

} // verus!
