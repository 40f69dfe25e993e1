//! What holds of the interceptors taken together, proved from the contracts
//! of the single calls.

use vstd::prelude::*;
use crate::address::{
    spec_inet_host, spec_inet_port, unix_view, AddressView, AF_INET, AF_UNIX, INET_ADDRESS_SIZE,
    LOOPBACK_HOST, UNIX_ADDRESS_SIZE, UNIX_DATA_LEN, WILDCARD_HOST,
};
use crate::bind::{
    spec_bind, spec_converted_after, spec_resume, spec_takes_over, BindStepView, FAILURE,
};
use crate::config::{spec_init_hook, ConfigView};
use crate::identity::{
    family_answer, inet_answer, spec_getpeername, spec_getsockname, spec_getsockopt,
    NameReplyView, OptionReply, INT_OPTION_SIZE, SOL_SOCKET, SO_DOMAIN, SUCCESS,
};
use crate::tracker::spec_close;

verus! {

/// A descriptor that is not recorded as redirected is never answered here:
/// each of its identity queries is delegated, whatever the configuration and
/// whatever the caller supplied, and its close leaves the record as it was.
pub proof fn unconverted_descriptor_is_delegated(
    config: ConfigView,
    converted: Set<i32>,
    fd: i32,
    level: i32,
    optname: i32,
    first_present: bool,
    second_present: bool,
)
    requires
        !converted.contains(fd),
    ensures
        spec_getsockname(config, converted, fd, first_present, second_present)
            == NameReplyView::Delegate,
        spec_getpeername(converted, fd, first_present, second_present) == NameReplyView::Delegate,
        spec_getsockopt(converted, fd, level, optname, first_present, second_present)
            == OptionReply::Delegate,
        spec_close(converted, fd) == converted,
{
    assert(converted.remove(fd) =~= converted);
}

/// A query that lacks one of its output buffers is delegated even for a
/// redirected descriptor, and so is a query for any option other than the
/// address family at the socket level.
pub proof fn malformed_or_foreign_query_is_delegated(
    config: ConfigView,
    converted: Set<i32>,
    fd: i32,
    level: i32,
    optname: i32,
    first_present: bool,
    second_present: bool,
)
    requires
        !first_present || !second_present || level != SOL_SOCKET || optname != SO_DOMAIN,
    ensures
        !first_present || !second_present ==> spec_getsockname(
            config,
            converted,
            fd,
            first_present,
            second_present,
        ) == NameReplyView::Delegate,
        !first_present || !second_present ==> spec_getpeername(
            converted,
            fd,
            first_present,
            second_present,
        ) == NameReplyView::Delegate,
        spec_getsockopt(converted, fd, level, optname, first_present, second_present)
            == OptionReply::Delegate,
{
}

/// A bind that is not taken over is the native bind and nothing else: the
/// one operation performed is the native call with the caller's arguments,
/// its result is returned as it came, no socket is created, no file is
/// touched, and the record of redirected descriptors stays as it was. This
/// covers an absent address, every family but IPv4, an IPv4 address too
/// short to hold a port, and every port but the configured one.
pub proof fn untaken_bind_is_native(
    config: ConfigView,
    converted: Set<i32>,
    fd: i32,
    address: Option<AddressView>,
    outcome: i32,
)
    requires
        !spec_takes_over(config, address),
    ensures
        spec_bind(config, fd, address) == BindStepView::Native,
        spec_resume(config, spec_bind(config, fd, address), outcome) == (BindStepView::Done {
            result: outcome,
        }),
        spec_converted_after(spec_bind(config, fd, address), converted) == converted,
{
}

/// A bind is taken over exactly when the configuration is live and the
/// address is an IPv4 address holding the configured port.
pub proof fn taken_bind_matches_configuration(config: ConfigView, address: Option<AddressView>)
    ensures
        spec_takes_over(config, address) <==> (config.active() && address is Some
            && address->Some_0.family == AF_INET && address->Some_0.data.len() >= 2
            && spec_inet_port(address->Some_0) == Some(config.port())),
{
}

/// Without a live configuration nothing is ever taken over: every bind, to
/// any address on any descriptor, is the native bind, and with no descriptor
/// recorded every identity query is delegated.
pub proof fn inert_configuration_changes_nothing(
    config: ConfigView,
    fd: i32,
    address: Option<AddressView>,
    level: i32,
    optname: i32,
    first_present: bool,
    second_present: bool,
)
    requires
        !config.active(),
    ensures
        spec_bind(config, fd, address) == BindStepView::Native,
        spec_getsockname(config, Set::<i32>::empty(), fd, first_present, second_present)
            == NameReplyView::Delegate,
        spec_getpeername(Set::<i32>::empty(), fd, first_present, second_present)
            == NameReplyView::Delegate,
        spec_getsockopt(Set::<i32>::empty(), fd, level, optname, first_present, second_present)
            == OptionReply::Delegate,
{
}

/// A configuration is inert when either input is missing, when the port is
/// unreadable or zero, and when the path is empty.
pub proof fn missing_input_gives_inert_configuration(
    port: Option<Seq<u8>>,
    path: Option<Seq<u8>>,
)
    requires
        port is None || path is None || spec_init_hook(port, path).target_port is None
            || spec_init_hook(port, path).target_port == Some(0u16) || path->Some_0.len() == 0
            || path->Some_0[0] == 0,
    ensures
        !spec_init_hook(port, path).active(),
{
}

/// The course of a redirect whose socket creation and duplication both
/// succeed, whatever closing the temporary descriptor and removing the old
/// file return.
///
/// The operations are, in this order: create a socket, duplicate it onto the
/// caller's descriptor, close the temporary descriptor, remove the file at
/// the configured path, bind the caller's descriptor to the Unix address of
/// that path. The caller's descriptor number is the one that every operation
/// acts on and the one that is recorded; the result of the last operation is
/// returned as it came. From then on the descriptor reports the configured
/// port on the wildcard host as its local address, port zero on the loopback
/// host as its peer, and IPv4 as its family.
pub proof fn successful_redirect_keeps_descriptor_and_identity(
    config: ConfigView,
    converted: Set<i32>,
    fd: i32,
    address: Option<AddressView>,
    temporary: i32,
    duplicated: i32,
    closed: i32,
    removed: i32,
    bound: i32,
)
    requires
        spec_takes_over(config, address),
        temporary >= 0,
        duplicated >= 0,
    ensures
        ({
            let create = spec_bind(config, fd, address);
            let duplicate = spec_resume(config, create, temporary);
            let release = spec_resume(config, duplicate, duplicated);
            let remove = spec_resume(config, release, closed);
            let rebind = spec_resume(config, remove, removed);
            let done = spec_resume(config, rebind, bound);
            let recorded = spec_converted_after(
                rebind,
                spec_converted_after(
                    remove,
                    spec_converted_after(
                        release,
                        spec_converted_after(duplicate, spec_converted_after(create, converted)),
                    ),
                ),
            );
            &&& create == BindStepView::CreateSocket { fd }
            &&& duplicate == BindStepView::Duplicate { fd, temporary }
            &&& release == BindStepView::Release { fd, temporary }
            &&& remove == BindStepView::RemoveFile { fd, path: config.socket_path }
            &&& rebind == BindStepView::BindUnix {
                fd,
                address: unix_view(config.socket_path),
                length: UNIX_ADDRESS_SIZE,
            }
            &&& done == BindStepView::Done { result: bound }
            &&& recorded == converted.insert(fd)
            &&& spec_getsockname(config, recorded, fd, true, true) == inet_answer(
                spec_inet_port(address->Some_0)->Some_0,
                WILDCARD_HOST,
            )
            &&& spec_getpeername(recorded, fd, true, true) == inet_answer(0, LOOPBACK_HOST)
            &&& spec_getsockopt(recorded, fd, SOL_SOCKET, SO_DOMAIN, true, true) == family_answer()
        }),
{
}

/// The answers given for a redirected descriptor report success and read
/// back as IPv4 addresses of full size: the local one holds the configured
/// port and the wildcard host, the peer one port zero and the loopback host.
/// The family option reads as IPv4 in the size of an integer.
pub proof fn fake_identity_reads_as_inet(config: ConfigView, converted: Set<i32>, fd: i32)
    requires
        converted.contains(fd),
    ensures
        spec_getsockname(config, converted, fd, true, true) matches NameReplyView::Answer {
            address,
            length,
            result,
        } && address.family == AF_INET && spec_inet_port(address) == Some(config.port())
            && spec_inet_host(address) == Some(WILDCARD_HOST) && length == INET_ADDRESS_SIZE
            && address.data.len() + 2 == length && result == SUCCESS,
        spec_getpeername(converted, fd, true, true) matches NameReplyView::Answer {
            address,
            length,
            result,
        } && address.family == AF_INET && spec_inet_port(address) == Some(0u16)
            && spec_inet_host(address) == Some(LOOPBACK_HOST) && length == INET_ADDRESS_SIZE
            && address.data.len() + 2 == length && result == SUCCESS,
        spec_getsockopt(converted, fd, SOL_SOCKET, SO_DOMAIN, true, true) == (OptionReply::Answer {
            value: AF_INET as i32,
            length: INT_OPTION_SIZE,
            result: SUCCESS,
        }),
{
    crate::address::inet_round_trip(config.port(), WILDCARD_HOST);
    crate::address::inet_round_trip(0, LOOPBACK_HOST);
}

/// The address that a redirected socket is bound to is a Unix address of
/// full size that holds the configured path, followed by at least one zero
/// byte.
pub proof fn unix_address_holds_path(config: ConfigView)
    requires
        config.wf(),
    ensures
        config.unix_address().family == AF_UNIX,
        config.unix_address().data.len() == UNIX_DATA_LEN,
        config.unix_address().data.len() + 2 == UNIX_ADDRESS_SIZE,
        config.unix_address().data.take(config.socket_path.len() as int) == config.socket_path,
        forall|i: int|
            config.socket_path.len() <= i < UNIX_DATA_LEN ==> #[trigger] config.unix_address().data[i]
                == 0,
        forall|i: int|
            0 <= i < config.socket_path.len() ==> #[trigger] config.unix_address().data[i] != 0,
{
}

/// A redirect whose socket cannot be created fails at once: the one
/// operation performed is the attempt, the result is the failure value, the
/// caller's descriptor is never acted on and nothing is recorded.
pub proof fn failed_socket_creation_leaves_no_trace(
    config: ConfigView,
    converted: Set<i32>,
    fd: i32,
    address: Option<AddressView>,
    temporary: i32,
)
    requires
        spec_takes_over(config, address),
        temporary < 0,
    ensures
        ({
            let create = spec_bind(config, fd, address);
            let done = spec_resume(config, create, temporary);
            &&& create == BindStepView::CreateSocket { fd }
            &&& done == BindStepView::Done { result: FAILURE }
            &&& spec_converted_after(create, converted) == converted
        }),
{
}

/// A redirect whose duplication fails closes the temporary descriptor and
/// fails: no file is removed, no bind is attempted, nothing is recorded, and
/// the result is the failure value whatever the close returned.
pub proof fn failed_duplication_leaves_no_trace(
    config: ConfigView,
    converted: Set<i32>,
    fd: i32,
    address: Option<AddressView>,
    temporary: i32,
    duplicated: i32,
    closed: i32,
)
    requires
        spec_takes_over(config, address),
        temporary >= 0,
        duplicated < 0,
    ensures
        ({
            let create = spec_bind(config, fd, address);
            let duplicate = spec_resume(config, create, temporary);
            let discard = spec_resume(config, duplicate, duplicated);
            let done = spec_resume(config, discard, closed);
            &&& duplicate == BindStepView::Duplicate { fd, temporary }
            &&& discard == BindStepView::Discard { temporary }
            &&& done == BindStepView::Done { result: FAILURE }
            &&& spec_converted_after(
                discard,
                spec_converted_after(duplicate, spec_converted_after(create, converted)),
            ) == converted
        }),
{
}

/// Every bind comes to an end: whatever the operations return, the sixth
/// step at the latest is `Done`, and `Done` stays `Done` with its result.
pub proof fn bind_finishes(
    config: ConfigView,
    fd: i32,
    address: Option<AddressView>,
    o1: i32,
    o2: i32,
    o3: i32,
    o4: i32,
    o5: i32,
    later: i32,
)
    ensures
        ({
            let last = spec_resume(
                config,
                spec_resume(
                    config,
                    spec_resume(
                        config,
                        spec_resume(config, spec_resume(config, spec_bind(config, fd, address), o1), o2),
                        o3,
                    ),
                    o4,
                ),
                o5,
            );
            last is Done && spec_resume(config, last, later) == last
        }),
{
}

/// The record changes only when a temporary descriptor is released, and
/// then only by the caller's descriptor: membership of every other
/// descriptor is untouched by any step.
pub proof fn step_records_only_its_descriptor(
    step: BindStepView,
    converted: Set<i32>,
    other: i32,
)
    requires
        !(step matches BindStepView::Release { fd, temporary } && fd == other),
    ensures
        spec_converted_after(step, converted).contains(other) == converted.contains(other),
{
}

/// After the close of a descriptor it is no longer answered for: a
/// descriptor that reuses its number is delegated on every query until it
/// is redirected itself, and every other descriptor is as it was.
pub proof fn closed_descriptor_is_forgotten(
    config: ConfigView,
    converted: Set<i32>,
    fd: i32,
    other: i32,
    level: i32,
    optname: i32,
    first_present: bool,
    second_present: bool,
)
    requires
        other != fd,
    ensures
        ({
            let remaining = spec_close(converted, fd);
            &&& spec_getsockname(config, remaining, fd, first_present, second_present)
                == NameReplyView::Delegate
            &&& spec_getpeername(remaining, fd, first_present, second_present)
                == NameReplyView::Delegate
            &&& spec_getsockopt(remaining, fd, level, optname, first_present, second_present)
                == OptionReply::Delegate
            &&& remaining.contains(other) == converted.contains(other)
            &&& remaining.insert(fd).contains(fd)
        }),
{
}

/// Redirecting a descriptor that is already recorded records nothing new,
/// and closing it once forgets it however often it was redirected. The
/// operations of a redirect depend on the configuration and the descriptor
/// alone, so a repeated redirect removes the file and binds the path again
/// exactly as the first one did.
pub proof fn repeated_redirect_is_idempotent(
    config: ConfigView,
    converted: Set<i32>,
    fd: i32,
    temporary: i32,
    later: i32,
)
    ensures
        ({
            let once = spec_converted_after(BindStepView::Release { fd, temporary }, converted);
            let twice = spec_converted_after(BindStepView::Release { fd, temporary: later }, once);
            &&& twice == once
            &&& spec_close(twice, fd) == spec_close(converted, fd)
        }),
{
    let once = converted.insert(fd);
    assert(once.insert(fd) == once);
    assert(once.remove(fd) == converted.remove(fd));
}

} // verus!
