//! The bind interceptor: a bind to the configured port is carried out as a
//! short conversation with the operating system that swaps the caller's
//! socket for a Unix socket under the same descriptor number.
//!
//! A `BindStep` names the one operation to perform next. The caller performs
//! it and reports the integer it returned to `bind_resume`, which names the
//! following step, until the step is `Done`.

use vstd::prelude::*;
use crate::address::{spec_inet_port, AddressView, SocketAddress, UNIX_ADDRESS_SIZE};
use crate::config::{Config, ConfigView};
use crate::tracker::ConvertedSockets;

verus! {

/// The result that reports a failed redirect.
pub const FAILURE: i32 = -1;

/// The operation to perform next on behalf of an intercepted bind.
#[derive(Debug, PartialEq, Eq)]
pub enum BindStep {
    /// Call the native bind with the caller's own arguments.
    Native,
    /// Create a Unix domain stream socket; report the new descriptor.
    CreateSocket { fd: i32 },
    /// Duplicate `temporary` onto `fd`, replacing what `fd` referred to.
    Duplicate { fd: i32, temporary: i32 },
    /// Close `temporary`: the duplication onto the caller's descriptor failed.
    Discard { temporary: i32 },
    /// Close `temporary`: the caller's descriptor now refers to the socket.
    Release { fd: i32, temporary: i32 },
    /// Remove the file at `path`; a missing file is no error.
    RemoveFile { fd: i32, path: Vec<u8> },
    /// Call the native bind on `fd` with `address` and `length`.
    BindUnix { fd: i32, address: SocketAddress, length: u32 },
    /// Return `result` to the caller of bind.
    Done { result: i32 },
}

/// What a `BindStep` stands for in contracts.
pub enum BindStepView {
    Native,
    CreateSocket { fd: i32 },
    Duplicate { fd: i32, temporary: i32 },
    Discard { temporary: i32 },
    Release { fd: i32, temporary: i32 },
    RemoveFile { fd: i32, path: Seq<u8> },
    BindUnix { fd: i32, address: AddressView, length: u32 },
    Done { result: i32 },
}

impl View for BindStep {
    type V = BindStepView;

    open spec fn view(&self) -> BindStepView {
        match *self {
            BindStep::Native => BindStepView::Native,
            BindStep::CreateSocket { fd } => BindStepView::CreateSocket { fd },
            BindStep::Duplicate { fd, temporary } => BindStepView::Duplicate { fd, temporary },
            BindStep::Discard { temporary } => BindStepView::Discard { temporary },
            BindStep::Release { fd, temporary } => BindStepView::Release { fd, temporary },
            BindStep::RemoveFile { fd, path } => BindStepView::RemoveFile { fd, path: path@ },
            BindStep::BindUnix { fd, address, length } => BindStepView::BindUnix {
                fd,
                address: address@,
                length,
            },
            BindStep::Done { result } => BindStepView::Done { result },
        }
    }
}

/// Whether a bind to `address` is taken over: the address is present, is an
/// IPv4 address that holds a port, and the port is the configured one of a
/// live configuration.
pub open spec fn spec_takes_over(config: ConfigView, address: Option<AddressView>) -> bool {
    match address {
        Some(a) => match spec_inet_port(a) {
            Some(port) => config.redirects(port),
            None => false,
        },
        None => false,
    }
}

/// The first step of a bind of `fd` to `address`.
pub open spec fn spec_bind(config: ConfigView, fd: i32, address: Option<AddressView>)
    -> BindStepView {
    if spec_takes_over(config, address) {
        BindStepView::CreateSocket { fd }
    } else {
        BindStepView::Native
    }
}

/// The step that follows `step` once it returned `outcome`.
pub open spec fn spec_resume(config: ConfigView, step: BindStepView, outcome: i32)
    -> BindStepView {
    match step {
        BindStepView::Native => BindStepView::Done { result: outcome },
        BindStepView::CreateSocket { fd } => if outcome < 0 {
            BindStepView::Done { result: FAILURE }
        } else {
            BindStepView::Duplicate { fd, temporary: outcome }
        },
        BindStepView::Duplicate { fd, temporary } => if outcome < 0 {
            BindStepView::Discard { temporary }
        } else {
            BindStepView::Release { fd, temporary }
        },
        BindStepView::Discard { temporary } => BindStepView::Done { result: FAILURE },
        BindStepView::Release { fd, temporary } => BindStepView::RemoveFile {
            fd,
            path: config.socket_path,
        },
        BindStepView::RemoveFile { fd, path } => BindStepView::BindUnix {
            fd,
            address: config.unix_address(),
            length: UNIX_ADDRESS_SIZE,
        },
        BindStepView::BindUnix { fd, address, length } => BindStepView::Done { result: outcome },
        BindStepView::Done { result } => BindStepView::Done { result },
    }
}

/// The descriptors recorded as redirected once `step` has returned: the
/// caller's descriptor joins them when the temporary descriptor has been
/// released, and at no other point.
pub open spec fn spec_converted_after(step: BindStepView, converted: Set<i32>) -> Set<i32> {
    match step {
        BindStepView::Release { fd, temporary } => converted.insert(fd),
        _ => converted,
    }
}

/// Begins an intercepted bind of `fd` to `address`, which is absent where
/// the caller passed no address.
pub fn bind(config: &Config, fd: i32, address: Option<&SocketAddress>) -> (step: BindStep)
    ensures
        step@ == spec_bind(
            config@,
            fd,
            match address {
                Some(a) => Some(a@),
                None => None,
            },
        ),
{
    let taken = match address {
        Some(a) => match a.inet_port() {
            Some(port) => config.redirects(port),
            None => false,
        },
        None => false,
    };
    if taken {
        BindStep::CreateSocket { fd }
    } else {
        BindStep::Native
    }
}

/// Continues an intercepted bind: `step` was performed and returned
/// `outcome`.
pub fn bind_resume(
    config: &Config,
    converted: &mut ConvertedSockets,
    step: &BindStep,
    outcome: i32,
) -> (next: BindStep)
    ensures
        next@ == spec_resume(config@, step@, outcome),
        final(converted)@ == spec_converted_after(step@, old(converted)@),
{
    match step {
        BindStep::Native => BindStep::Done { result: outcome },
        BindStep::CreateSocket { fd } => {
            if outcome < 0 {
                BindStep::Done { result: FAILURE }
            } else {
                BindStep::Duplicate { fd: *fd, temporary: outcome }
            }
        },
        BindStep::Duplicate { fd, temporary } => {
            if outcome < 0 {
                BindStep::Discard { temporary: *temporary }
            } else {
                BindStep::Release { fd: *fd, temporary: *temporary }
            }
        },
        BindStep::Discard { temporary } => BindStep::Done { result: FAILURE },
        BindStep::Release { fd, temporary } => {
            converted.mark(*fd);
            BindStep::RemoveFile {
                fd: *fd,
                path: vstd::slice::slice_to_vec(config.socket_path()),
            }
        },
        BindStep::RemoveFile { fd, path } => BindStep::BindUnix {
            fd: *fd,
            address: config.unix_address(),
            length: UNIX_ADDRESS_SIZE,
        },
        BindStep::BindUnix { fd, address, length } => BindStep::Done { result: outcome },
        BindStep::Done { result } => BindStep::Done { result: *result },
    }
}

} // verus!
