use porrocket::address::{
    SocketAddress, AF_INET, AF_UNIX, INET_ADDRESS_SIZE, INET_DATA_LEN, LOOPBACK_HOST,
    MAX_PATH_LEN, UNIX_ADDRESS_SIZE, UNIX_DATA_LEN, WILDCARD_HOST,
};

#[test]
fn layout_constants_have_the_kernel_values() {
    assert_eq!(AF_UNIX, 1);
    assert_eq!(AF_INET, 2);
    assert_eq!(INET_DATA_LEN, 14);
    assert_eq!(UNIX_DATA_LEN, 108);
    assert_eq!(MAX_PATH_LEN, 107);
    assert_eq!(INET_ADDRESS_SIZE, 16);
    assert_eq!(UNIX_ADDRESS_SIZE, 110);
    assert_eq!(WILDCARD_HOST, 0);
    assert_eq!(LOOPBACK_HOST, 2130706433);
}

#[test]
fn inet_address_has_port_and_host_in_network_order() {
    let address = SocketAddress::inet(9000, WILDCARD_HOST);
    assert_eq!(address.family, 2);
    assert_eq!(address.data, vec![0x23, 0x28, 0, 0, 0, 0, 0, 0, 0, 0, 0, 0, 0, 0]);
    let loopback = SocketAddress::inet(0, LOOPBACK_HOST);
    assert_eq!(loopback.family, 2);
    assert_eq!(loopback.data, vec![0, 0, 127, 0, 0, 1, 0, 0, 0, 0, 0, 0, 0, 0]);
    let mixed = SocketAddress::inet(0x0102, 0xc0a8_010a);
    assert_eq!(mixed.data, vec![1, 2, 192, 168, 1, 10, 0, 0, 0, 0, 0, 0, 0, 0]);
    let full = SocketAddress::inet(65535, u32::MAX);
    assert_eq!(full.data, vec![255, 255, 255, 255, 255, 255, 0, 0, 0, 0, 0, 0, 0, 0]);
}

#[test]
fn inet_address_matches_the_standard_byte_order() {
    for (port, host) in [(9000u16, 0u32), (80, 0x7f00_0001), (443, 0x0a00_0001), (1, 1)] {
        let address = SocketAddress::inet(port, host);
        assert_eq!(&address.data[0..2], &port.to_be_bytes());
        assert_eq!(&address.data[2..6], &host.to_be_bytes());
        assert_eq!(address.data.len(), 14);
    }
}

#[test]
fn inet_port_reads_back_every_port() {
    for port in 0..=u16::MAX {
        assert_eq!(SocketAddress::inet(port, 0).inet_port(), Some(port));
    }
}

#[test]
fn inet_host_reads_back_hosts() {
    for host in [0u32, 1, 255, 256, 0x7f00_0001, 0xc0a8_0001, 0xffff_ffff, 0x0102_0304] {
        let address = SocketAddress::inet(8080, host);
        assert_eq!(address.inet_host(), Some(host));
        assert_eq!(address.inet_port(), Some(8080));
    }
}

#[test]
fn inet_port_reads_raw_bytes() {
    let address = SocketAddress { family: 2, data: vec![0x1f, 0x90, 10, 0, 0, 1] };
    assert_eq!(address.inet_port(), Some(8080));
    assert_eq!(address.inet_host(), Some(0x0a00_0001));
    let only_port = SocketAddress { family: 2, data: vec![0x23, 0x28] };
    assert_eq!(only_port.inet_port(), Some(9000));
    assert_eq!(only_port.inet_host(), None);
}

#[test]
fn inet_port_is_absent_from_a_short_address() {
    assert_eq!(SocketAddress { family: 2, data: vec![] }.inet_port(), None);
    assert_eq!(SocketAddress { family: 2, data: vec![0x23] }.inet_port(), None);
    assert_eq!(SocketAddress { family: 2, data: vec![0x23, 0x28, 0, 0, 0] }.inet_host(), None);
}

#[test]
fn inet_port_is_absent_from_other_families() {
    let bytes = vec![0x23, 0x28, 0, 0, 0, 0, 0, 0, 0, 0, 0, 0, 0, 0];
    for family in [0u16, 1, 3, 10, 16, 17, 0x0200, 65535] {
        let address = SocketAddress { family, data: bytes.clone() };
        assert_eq!(address.inet_port(), None);
        assert_eq!(address.inet_host(), None);
    }
}

#[test]
fn unix_address_pads_the_path_with_zeros() {
    let address = SocketAddress::unix(b"/tmp/test.sock");
    assert_eq!(address.family, 1);
    assert_eq!(address.data.len(), 108);
    let mut expected = b"/tmp/test.sock".to_vec();
    expected.resize(108, 0);
    assert_eq!(address.data, expected);
    assert_eq!(address.inet_port(), None);
}

#[test]
fn unix_address_of_an_empty_path_is_all_zeros() {
    let address = SocketAddress::unix(b"");
    assert_eq!(address.family, 1);
    assert_eq!(address.data, vec![0u8; 108]);
}

#[test]
fn unix_address_of_the_longest_path_ends_in_a_zero() {
    let path = vec![b'q'; 107];
    let address = SocketAddress::unix(&path);
    assert_eq!(address.data.len(), 108);
    assert_eq!(&address.data[..107], &path[..]);
    assert_eq!(address.data[107], 0);
}

#[test]
fn socket_address_clone_is_equal() {
    let address = SocketAddress::inet(9000, LOOPBACK_HOST);
    assert_eq!(address.clone(), address);
    assert_ne!(address, SocketAddress::inet(9001, LOOPBACK_HOST));
    assert_ne!(address, SocketAddress::inet(9000, WILDCARD_HOST));
}
