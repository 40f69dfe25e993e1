//! The redirect's configuration: which port is taken over, and the path of
//! the Unix socket that replaces it.

use vstd::prelude::*;
use crate::address::{unix_view, AddressView, SocketAddress, MAX_PATH_LEN};

verus! {

/// Whether `byte` is an ASCII decimal digit.
pub open spec fn is_digit(byte: u8) -> bool {
    0x30 <= byte <= 0x39
}

/// Whether every byte of `text` is an ASCII decimal digit.
pub open spec fn all_digits(text: Seq<u8>) -> bool {
    forall|i: int| 0 <= i < text.len() ==> is_digit(#[trigger] text[i])
}

/// The number that the decimal digits of `text` write.
pub open spec fn decimal_value(text: Seq<u8>) -> nat
    decreases text.len(),
{
    if text.len() == 0 {
        0
    } else {
        decimal_value(text.drop_last()) * 10 + (text.last() - 0x30) as nat
    }
}

/// `text` without one leading plus sign, if it has one.
pub open spec fn unsigned_digits(text: Seq<u8>) -> Seq<u8> {
    if text.len() > 0 && text[0] == 0x2b {
        text.skip(1)
    } else {
        text
    }
}

/// The port that `text` writes: an optional plus sign, then one or more
/// decimal digits whose value fits sixteen bits. Anything else is no port.
pub open spec fn spec_parse_port(text: Seq<u8>) -> Option<u16> {
    let digits = unsigned_digits(text);
    if digits.len() > 0 && all_digits(digits) && decimal_value(digits) <= u16::MAX {
        Some(decimal_value(digits) as u16)
    } else {
        None
    }
}

/// How many leading bytes of `raw` are usable as a path: they stop before the
/// first zero byte and never exceed `limit`.
pub open spec fn usable_len(raw: Seq<u8>, limit: nat) -> nat
    decreases limit,
{
    if limit == 0 || raw.len() == 0 || raw[0] == 0 {
        0
    } else {
        1 + usable_len(raw.skip(1), (limit - 1) as nat)
    }
}

/// The path that is kept of `raw`: its longest prefix that has no zero byte
/// and fits the path field with its terminator.
pub open spec fn spec_effective_path(raw: Seq<u8>) -> Seq<u8> {
    raw.take(usable_len(raw, MAX_PATH_LEN as nat) as int)
}

/// Whether `path` can be stored as a socket path.
pub open spec fn valid_path(path: Seq<u8>) -> bool {
    &&& path.len() <= MAX_PATH_LEN
    &&& forall|i: int| 0 <= i < path.len() ==> #[trigger] path[i] != 0
}

/// A longer digit string never writes a smaller number than its prefix.
proof fn lemma_decimal_value_grows(text: Seq<u8>, len: int)
    requires
        0 <= len <= text.len(),
        all_digits(text),
    ensures
        decimal_value(text.take(len)) <= decimal_value(text),
    decreases text.len() - len,
{
    if len == text.len() {
        assert(text.take(len) == text);
    } else {
        lemma_decimal_value_grows(text, len + 1);
        let longer = text.take(len + 1);
        assert(longer.drop_last() == text.take(len));
        assert(is_digit(text[len]));
        assert(longer.last() == text[len]);
    }
}

/// Unfolds `usable_len` from the back: what one more byte adds.
proof fn lemma_usable_len_step(raw: Seq<u8>, limit: nat, len: nat)
    requires
        len < limit,
        len < raw.len(),
        forall|i: int| 0 <= i < len ==> #[trigger] raw[i] != 0,
    ensures
        usable_len(raw, len) == len,
        raw[len as int] == 0 ==> usable_len(raw, limit) == len,
        raw[len as int] != 0 ==> usable_len(raw, (len + 1) as nat) == len + 1,
    decreases len,
{
    if len == 0 {
        reveal_with_fuel(usable_len, 2);
    } else {
        let rest = raw.skip(1);
        assert forall|i: int| 0 <= i < len - 1 implies #[trigger] rest[i] != 0 by {
            assert(rest[i] == raw[i + 1]);
        }
        lemma_usable_len_step(rest, (limit - 1) as nat, (len - 1) as nat);
        assert(rest[len - 1] == raw[len as int]);
        assert(raw[0] != 0);
    }
}

/// A prefix without zero bytes that ends at the limit or at the end of the
/// input is all that is usable.
proof fn lemma_usable_len_full(raw: Seq<u8>, limit: nat, len: nat)
    requires
        len <= limit,
        len <= raw.len(),
        len == limit || len == raw.len(),
        forall|i: int| 0 <= i < len ==> #[trigger] raw[i] != 0,
    ensures
        usable_len(raw, limit) == len,
    decreases len,
{
    if len == 0 {
    } else {
        let rest = raw.skip(1);
        assert forall|i: int| 0 <= i < len - 1 implies #[trigger] rest[i] != 0 by {
            assert(rest[i] == raw[i + 1]);
        }
        lemma_usable_len_full(rest, (limit - 1) as nat, (len - 1) as nat);
        assert(raw[0] != 0);
    }
}

/// Reads a port number from decimal text.
pub fn parse_port(text: &[u8]) -> (port: Option<u16>)
    ensures
        port == spec_parse_port(text@),
{
    let start: usize = if text.len() > 0 && text[0] == 0x2b { 1 } else { 0 };
    let ghost digits = unsigned_digits(text@);
    assert(digits == text@.skip(start as int));
    if start == text.len() {
        return None;
    }
    let mut value: u32 = 0;
    let mut i: usize = start;
    while i < text.len()
        invariant
            start <= i <= text@.len(),
            digits == unsigned_digits(text@),
            digits == text@.skip(start as int),
            digits.len() > 0,
            all_digits(digits.take(i - start)),
            value == decimal_value(digits.take(i - start)),
            value <= u16::MAX,
        decreases text@.len() - i,
    {
        let byte = text[i];
        let ghost seen = digits.take(i - start);
        let ghost next = digits.take(i - start + 1);
        assert(next.drop_last() == seen);
        assert(next.last() == byte);
        if byte < 0x30 || byte > 0x39 {
            assert(!is_digit(digits[i - start]));
            return None;
        }
        value = value * 10 + (byte - 0x30) as u32;
        assert(value == decimal_value(next));
        if value > 0xffff {
            proof {
                if all_digits(digits) {
                    lemma_decimal_value_grows(digits, i - start + 1);
                }
            }
            return None;
        }
        assert forall|k: int| 0 <= k < next.len() implies is_digit(#[trigger] next[k]) by {
            if k < seen.len() {
                assert(next[k] == seen[k]);
            }
        }
        i += 1;
    }
    assert(digits.take(i - start) == digits);
    Some(value as u16)
}

/// Cuts `raw` down to the path that can be stored.
pub fn effective_path(raw: &[u8]) -> (path: Vec<u8>)
    ensures
        path@ == spec_effective_path(raw@),
        valid_path(path@),
{
    let mut path: Vec<u8> = Vec::new();
    let mut i: usize = 0;
    while i < raw.len() && i < MAX_PATH_LEN
        invariant
            i <= raw@.len(),
            i <= MAX_PATH_LEN,
            path@ == raw@.take(i as int),
            forall|k: int| 0 <= k < i ==> #[trigger] raw@[k] != 0,
        decreases raw@.len() - i,
    {
        let byte = raw[i];
        proof {
            lemma_usable_len_step(raw@, MAX_PATH_LEN as nat, i as nat);
        }
        if byte == 0 {
            return path;
        }
        path.push(byte);
        assert(raw@.take(i + 1) == raw@.take(i as int).push(byte));
        i += 1;
    }
    proof {
        lemma_usable_len_full(raw@, MAX_PATH_LEN as nat, i as nat);
    }
    path
}

/// The configuration of one redirect.
///
/// The redirect is live only when a non-zero port and a non-empty path are
/// both present; otherwise every intercepted call is handed on unchanged.
#[derive(Debug, PartialEq, Eq)]
pub struct Config {
    target_port: Option<u16>,
    socket_path: Vec<u8>,
}

/// What a `Config` stands for in contracts.
pub struct ConfigView {
    pub target_port: Option<u16>,
    pub socket_path: Seq<u8>,
}

impl ConfigView {
    /// The configured port, or zero where none is set.
    pub open spec fn port(self) -> u16 {
        match self.target_port {
            Some(port) => port,
            None => 0,
        }
    }

    /// Whether the redirect is live.
    pub open spec fn active(self) -> bool {
        self.port() != 0 && self.socket_path.len() > 0
    }

    /// Whether a bind to `port` is taken over.
    pub open spec fn redirects(self, port: u16) -> bool {
        self.active() && port == self.port()
    }

    /// Whether the stored path fits the path field of a Unix address.
    pub open spec fn wf(self) -> bool {
        valid_path(self.socket_path)
    }

    /// The Unix address that a redirected socket is bound to.
    pub open spec fn unix_address(self) -> AddressView {
        unix_view(self.socket_path)
    }
}

/// The configuration that the two inputs give: each is used where it is
/// present and readable, and left unset otherwise.
pub open spec fn spec_init_hook(port: Option<Seq<u8>>, path: Option<Seq<u8>>) -> ConfigView {
    ConfigView {
        target_port: match port {
            Some(text) => spec_parse_port(text),
            None => None,
        },
        socket_path: match path {
            Some(raw) => spec_effective_path(raw),
            None => Seq::empty(),
        },
    }
}

impl View for Config {
    type V = ConfigView;

    closed spec fn view(&self) -> ConfigView {
        ConfigView { target_port: self.target_port, socket_path: self.socket_path@ }
    }
}

impl Clone for Config {
    fn clone(&self) -> (copy: Config)
        ensures
            copy@ == self@,
    {
        proof {
            use_type_invariant(self);
        }
        Config {
            target_port: self.target_port,
            socket_path: vstd::slice::slice_to_vec(self.socket_path.as_slice()),
        }
    }
}

impl Config {
    #[verifier::type_invariant]
    spec fn inv(self) -> bool {
        valid_path(self.socket_path@)
    }

    /// A configuration with nothing set: the redirect is off.
    pub fn inert() -> (config: Config)
        ensures
            config@ == spec_init_hook(None, None),
            config@.wf(),
            !config@.active(),
    {
        Config { target_port: None, socket_path: Vec::new() }
    }

    /// Builds a configuration from a port and a path. The path is cut down to
    /// what can be stored.
    pub fn new(port: Option<u16>, path: &[u8]) -> (config: Config)
        ensures
            config@.target_port == port,
            config@.socket_path == spec_effective_path(path@),
            config@.wf(),
    {
        Config { target_port: port, socket_path: effective_path(path) }
    }

    /// The configured port, if one was given.
    pub fn target_port(&self) -> (port: Option<u16>)
        ensures
            port == self@.target_port,
    {
        self.target_port
    }

    /// The configured port, or zero where none is set.
    pub fn port(&self) -> (port: u16)
        ensures
            port == self@.port(),
    {
        match self.target_port {
            Some(port) => port,
            None => 0,
        }
    }

    /// The configured socket path; empty where none is set.
    pub fn socket_path(&self) -> (path: &[u8])
        ensures
            path@ == self@.socket_path,
            self@.wf(),
    {
        proof {
            use_type_invariant(self);
        }
        self.socket_path.as_slice()
    }

    /// Whether the redirect is live.
    pub fn is_active(&self) -> (active: bool)
        ensures
            active == self@.active(),
    {
        self.port() != 0 && self.socket_path.len() > 0
    }

    /// Whether a bind to `port` is taken over.
    pub fn redirects(&self, port: u16) -> (taken: bool)
        ensures
            taken == self@.redirects(port),
    {
        self.is_active() && port == self.port()
    }

    /// The Unix address that a redirected socket is bound to.
    pub fn unix_address(&self) -> (address: SocketAddress)
        ensures
            address@ == self@.unix_address(),
    {
        SocketAddress::unix(self.socket_path())
    }
}

/// Reads the configuration from its two inputs: the port as decimal text and
/// the path as raw bytes, each absent where the input was not supplied.
pub fn init_hook(port: Option<&[u8]>, path: Option<&[u8]>) -> (config: Config)
    ensures
        config@ == spec_init_hook(
            match port {
                Some(text) => Some(text@),
                None => None,
            },
            match path {
                Some(raw) => Some(raw@),
                None => None,
            },
        ),
        config@.wf(),
{
    let target_port = match port {
        Some(text) => parse_port(text),
        None => None,
    };
    let socket_path = match path {
        Some(raw) => effective_path(raw),
        None => Vec::new(),
    };
    Config { target_port, socket_path }
}

/// The kept path is the one prefix of the input that has no zero byte, fits
/// the limit, and stops only at the limit, at a zero byte or at the end.
pub proof fn effective_path_is_longest_clean_prefix(raw: Seq<u8>)
    ensures
        valid_path(spec_effective_path(raw)),
        spec_effective_path(raw).is_prefix_of(raw),
        ({
            let len = spec_effective_path(raw).len();
            len == MAX_PATH_LEN || len == raw.len() || raw[len as int] == 0
        }),
{
    lemma_usable_len_shape(raw, MAX_PATH_LEN as nat);
}

/// The shape of `usable_len`: it counts non-zero bytes and stops only at the
/// limit, at a zero byte or at the end.
proof fn lemma_usable_len_shape(raw: Seq<u8>, limit: nat)
    ensures
        usable_len(raw, limit) <= limit,
        usable_len(raw, limit) <= raw.len(),
        forall|i: int| 0 <= i < usable_len(raw, limit) ==> #[trigger] raw[i] != 0,
        usable_len(raw, limit) == limit || usable_len(raw, limit) == raw.len() || raw[usable_len(
            raw,
            limit,
        ) as int] == 0,
    decreases limit,
{
    if limit == 0 || raw.len() == 0 || raw[0] == 0 {
    } else {
        let rest = raw.skip(1);
        lemma_usable_len_shape(rest, (limit - 1) as nat);
        let inner = usable_len(rest, (limit - 1) as nat);
        assert forall|i: int| 0 <= i < inner + 1 implies #[trigger] raw[i] != 0 by {
            if i > 0 {
                assert(rest[i - 1] == raw[i]);
            }
        }
        if inner < rest.len() {
            assert(rest[inner as int] == raw[inner as int + 1]);
        }
    }
}

} // verus!
