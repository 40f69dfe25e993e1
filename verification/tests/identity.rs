use porrocket::address::SocketAddress;
use porrocket::config::Config;
use porrocket::identity::{
    NameReply, OptionReply, INT_OPTION_SIZE, SOL_SOCKET, SO_DOMAIN, SUCCESS,
};
use porrocket::tracker::ConvertedSockets;
use porrocket::{close, getpeername, getsockname, getsockopt};

fn live() -> Config {
    Config::new(Some(9000), b"/tmp/test.sock")
}

#[test]
fn option_constants_have_the_kernel_values() {
    assert_eq!(SOL_SOCKET, 1);
    assert_eq!(SO_DOMAIN, 39);
    assert_eq!(INT_OPTION_SIZE, 4);
    assert_eq!(SUCCESS, 0);
}

#[test]
fn tracker_starts_empty() {
    let converted = ConvertedSockets::new();
    for fd in [-1, 0, 1, 2, 3, 100, i32::MAX, i32::MIN] {
        assert!(!converted.is_marked(fd));
    }
}

#[test]
fn tracker_mark_is_idempotent() {
    let mut converted = ConvertedSockets::new();
    converted.mark(5);
    converted.mark(5);
    assert!(converted.is_marked(5));
    assert!(!converted.is_marked(4));
    converted.unmark(5);
    assert!(!converted.is_marked(5));
}

#[test]
fn tracker_unmark_is_idempotent() {
    let mut converted = ConvertedSockets::new();
    converted.unmark(5);
    assert!(!converted.is_marked(5));
    converted.mark(5);
    converted.mark(6);
    converted.unmark(5);
    converted.unmark(5);
    assert!(!converted.is_marked(5));
    assert!(converted.is_marked(6));
}

#[test]
fn tracker_keeps_descriptors_apart() {
    let mut converted = ConvertedSockets::new();
    for fd in [3, 7, 11] {
        converted.mark(fd);
    }
    converted.unmark(7);
    assert!(converted.is_marked(3));
    assert!(!converted.is_marked(7));
    assert!(converted.is_marked(11));
    assert!(!converted.is_marked(0));
}

#[test]
fn close_forgets_the_descriptor() {
    let mut converted = ConvertedSockets::new();
    converted.mark(5);
    converted.mark(6);
    close(&mut converted, 5);
    assert!(!converted.is_marked(5));
    assert!(converted.is_marked(6));
    close(&mut converted, 5);
    close(&mut converted, 99);
    assert!(!converted.is_marked(5));
    assert!(converted.is_marked(6));
}

#[test]
fn getsockname_of_a_converted_descriptor_reports_the_configured_port() {
    let mut converted = ConvertedSockets::new();
    converted.mark(5);
    let reply = getsockname(&live(), &converted, 5, true, true);
    assert_eq!(
        reply,
        NameReply::Answer {
            address: SocketAddress {
                family: 2,
                data: vec![0x23, 0x28, 0, 0, 0, 0, 0, 0, 0, 0, 0, 0, 0, 0],
            },
            length: 16,
            result: 0,
        }
    );
    match reply {
        NameReply::Answer { address, .. } => {
            assert_eq!(address.inet_port(), Some(9000));
            assert_eq!(address.inet_host(), Some(0));
        }
        NameReply::Delegate => panic!("a converted descriptor was delegated"),
    }
}

#[test]
fn getsockname_follows_the_configuration() {
    let mut converted = ConvertedSockets::new();
    converted.mark(8);
    let config = Config::new(Some(443), b"/run/web.sock");
    assert_eq!(
        getsockname(&config, &converted, 8, true, true),
        NameReply::Answer { address: SocketAddress::inet(443, 0), length: 16, result: 0 }
    );
    assert_eq!(
        getsockname(&Config::inert(), &converted, 8, true, true),
        NameReply::Answer { address: SocketAddress::inet(0, 0), length: 16, result: 0 }
    );
}

#[test]
fn getsockname_of_an_unconverted_descriptor_is_delegated() {
    let mut converted = ConvertedSockets::new();
    converted.mark(5);
    for fd in [-1, 0, 4, 6, 9000] {
        assert_eq!(getsockname(&live(), &converted, fd, true, true), NameReply::Delegate);
    }
}

#[test]
fn getsockname_without_an_output_buffer_is_delegated() {
    let mut converted = ConvertedSockets::new();
    converted.mark(5);
    assert_eq!(getsockname(&live(), &converted, 5, false, true), NameReply::Delegate);
    assert_eq!(getsockname(&live(), &converted, 5, true, false), NameReply::Delegate);
    assert_eq!(getsockname(&live(), &converted, 5, false, false), NameReply::Delegate);
}

#[test]
fn getpeername_of_a_converted_descriptor_reports_loopback() {
    let mut converted = ConvertedSockets::new();
    converted.mark(5);
    let reply = getpeername(&converted, 5, true, true);
    assert_eq!(
        reply,
        NameReply::Answer {
            address: SocketAddress {
                family: 2,
                data: vec![0, 0, 127, 0, 0, 1, 0, 0, 0, 0, 0, 0, 0, 0],
            },
            length: 16,
            result: 0,
        }
    );
    match reply {
        NameReply::Answer { address, .. } => {
            assert_eq!(address.inet_port(), Some(0));
            assert_eq!(address.inet_host(), Some(0x7f00_0001));
        }
        NameReply::Delegate => panic!("a converted descriptor was delegated"),
    }
}

#[test]
fn getpeername_of_an_unconverted_descriptor_is_delegated() {
    let mut converted = ConvertedSockets::new();
    converted.mark(5);
    for fd in [-1, 0, 4, 6] {
        assert_eq!(getpeername(&converted, fd, true, true), NameReply::Delegate);
    }
}

#[test]
fn getpeername_without_an_output_buffer_is_delegated() {
    let mut converted = ConvertedSockets::new();
    converted.mark(5);
    assert_eq!(getpeername(&converted, 5, false, true), NameReply::Delegate);
    assert_eq!(getpeername(&converted, 5, true, false), NameReply::Delegate);
    assert_eq!(getpeername(&converted, 5, false, false), NameReply::Delegate);
}

#[test]
fn getsockopt_of_a_converted_descriptor_reports_inet() {
    let mut converted = ConvertedSockets::new();
    converted.mark(5);
    assert_eq!(
        getsockopt(&converted, 5, 1, 39, true, true),
        OptionReply::Answer { value: 2, length: 4, result: 0 }
    );
    assert_eq!(
        getsockopt(&converted, 5, SOL_SOCKET, SO_DOMAIN, true, true),
        OptionReply::Answer { value: 2, length: 4, result: 0 }
    );
}

#[test]
fn getsockopt_for_another_option_is_delegated() {
    let mut converted = ConvertedSockets::new();
    converted.mark(5);
    for optname in [0, 1, 2, 3, 4, 38, 40, -39] {
        assert_eq!(getsockopt(&converted, 5, 1, optname, true, true), OptionReply::Delegate);
    }
    for level in [0, 2, 6, 41, 65535, -1] {
        assert_eq!(getsockopt(&converted, 5, level, 39, true, true), OptionReply::Delegate);
    }
}

#[test]
fn getsockopt_of_an_unconverted_descriptor_is_delegated() {
    let mut converted = ConvertedSockets::new();
    converted.mark(5);
    assert_eq!(getsockopt(&converted, 6, 1, 39, true, true), OptionReply::Delegate);
    assert_eq!(getsockopt(&ConvertedSockets::new(), 5, 1, 39, true, true), OptionReply::Delegate);
}

#[test]
fn getsockopt_without_an_output_buffer_is_delegated() {
    let mut converted = ConvertedSockets::new();
    converted.mark(5);
    assert_eq!(getsockopt(&converted, 5, 1, 39, false, true), OptionReply::Delegate);
    assert_eq!(getsockopt(&converted, 5, 1, 39, true, false), OptionReply::Delegate);
    assert_eq!(getsockopt(&converted, 5, 1, 39, false, false), OptionReply::Delegate);
}

#[test]
fn closed_descriptor_reports_nothing_until_converted_again() {
    let mut converted = ConvertedSockets::new();
    converted.mark(5);
    close(&mut converted, 5);
    assert_eq!(getsockname(&live(), &converted, 5, true, true), NameReply::Delegate);
    assert_eq!(getpeername(&converted, 5, true, true), NameReply::Delegate);
    assert_eq!(getsockopt(&converted, 5, 1, 39, true, true), OptionReply::Delegate);
    converted.mark(5);
    assert_eq!(
        getsockname(&live(), &converted, 5, true, true),
        NameReply::Answer { address: SocketAddress::inet(9000, 0), length: 16, result: 0 }
    );
    assert_eq!(
        getpeername(&converted, 5, true, true),
        NameReply::Answer { address: SocketAddress::inet(0, 0x7f00_0001), length: 16, result: 0 }
    );
    assert_eq!(
        getsockopt(&converted, 5, 1, 39, true, true),
        OptionReply::Answer { value: 2, length: 4, result: 0 }
    );
}
