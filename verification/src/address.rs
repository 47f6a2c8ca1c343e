//! Network addresses as text: the scheme of a URL, and the host and port of a
//! listening address.

use vstd::prelude::*;
use vstd::string::{StrSliceExecFns, StringExecFns};

verus! {

/// `text` begins with `prefix`.
pub open spec fn has_prefix(text: Seq<char>, prefix: Seq<char>) -> bool {
    prefix.len() <= text.len() && text.subrange(0, prefix.len() as int) == prefix
}

/// Whether `text` begins with `prefix`.
pub fn starts_with(text: &str, prefix: &str) -> (found: bool)
    ensures
        found == has_prefix(text@, prefix@),
{
    let wanted: usize = prefix.unicode_len();
    let given: usize = text.unicode_len();
    if wanted > given {
        return false;
    }
    let mut at: usize = 0;
    while at < wanted
        invariant
            at <= wanted <= given,
            wanted == prefix@.len(),
            given == text@.len(),
            forall|k: int| 0 <= k < at ==> text@[k] == prefix@[k],
        decreases wanted - at,
    {
        if text.get_char(at) != prefix.get_char(at) {
            return false;
        }
        at += 1;
    }
    assert(text@.subrange(0, wanted as int) =~= prefix@);
    true
}

/// Whether two texts hold the same characters.
pub fn same_text(left: &str, right: &str) -> (same: bool)
    ensures
        same == (left@ == right@),
{
    if left.unicode_len() != right.unicode_len() {
        return false;
    }
    let same = starts_with(left, right);
    proof {
        assert(left@.subrange(0, left@.len() as int) =~= left@);
    }
    same
}

/// The address with a scheme: as it is where it names `http` or `https`,
/// else with `http://` in front.
pub open spec fn spec_normalize_broker_url(address: Seq<char>) -> Seq<char> {
    if has_prefix(address, "http://"@) || has_prefix(address, "https://"@) {
        address
    } else {
        "http://"@ + address
    }
}

/// Gives an address the `http` scheme unless it names a scheme already.
pub fn normalize_broker_url(address: &str) -> (url: String)
    ensures
        url@ == spec_normalize_broker_url(address@),
{
    if starts_with(address, "http://") || starts_with(address, "https://") {
        String::from_str(address)
    } else {
        String::from_str("http://").concat(address)
    }
}

/// The role under which a service is looked up where none is asked for.
pub open spec fn default_role() -> Seq<char> {
    "default"@
}

/// A role that is empty or the default one: it matches a lookup that names
/// no role of its own.
pub open spec fn spec_role_matches(role: Seq<char>) -> bool {
    role.len() == 0 || role == default_role()
}

/// Whether a role matches a lookup that names none: it is empty or the
/// default role.
pub fn role_matches(role: &str) -> (matches: bool)
    ensures
        matches == spec_role_matches(role@),
{
    role.is_empty() || same_text(role, "default")
}

/// What `str::parse::<i32>` makes of a text: the number it spells in base
/// ten, or nothing where it spells none that fits.
pub uninterp spec fn decimal_i32(text: Seq<char>) -> Option<i32>;

/// Calls `str::parse::<i32>`, which reads a whole text as a number in base
/// ten. The result depends on the text alone.
#[verifier::external_body]
fn parse_decimal(text: &str) -> (number: Option<i32>)
    ensures
        number == decimal_i32(text@),
{
    text.parse::<i32>().ok()
}

/// Why an address could not be split into host and port.
#[derive(Clone, Copy, Debug, PartialEq, Eq, Structural)]
pub enum AddressError {
    /// The address holds no colon.
    MissingSeparator,
    /// What follows the last colon is not a port number.
    InvalidPort,
}

/// `at` is where the last colon of `address` stands.
pub open spec fn is_last_colon(address: Seq<char>, at: int) -> bool {
    &&& 0 <= at < address.len()
    &&& address[at] == ':'
    &&& forall|k: int| at < k < address.len() ==> address[k] != ':'
}

/// `address` holds no colon.
pub open spec fn has_no_colon(address: Seq<char>) -> bool {
    forall|k: int| 0 <= k < address.len() ==> address[k] != ':'
}

/// Where the last colon of an address stands, if it holds one.
pub fn find_last_colon(address: &str) -> (found: Option<usize>)
    ensures
        match found {
            Some(at) => is_last_colon(address@, at as int),
            None => has_no_colon(address@),
        },
{
    let mut at: usize = address.unicode_len();
    while at > 0
        invariant
            at <= address@.len(),
            forall|k: int| at <= k < address@.len() ==> address@[k] != ':',
        decreases at,
    {
        at -= 1;
        if address.get_char(at) == ':' {
            return Some(at);
        }
    }
    None
}

/// Pairs a host with its port, where the port was read.
pub fn endpoint_from_parts(host: &str, port: Option<i32>) -> (endpoint: Result<
    (String, i32),
    AddressError,
>)
    ensures
        match port {
            Some(number) => endpoint matches Ok(pair) && pair.0@ == host@ && pair.1 == number,
            None => endpoint == Err::<(String, i32), AddressError>(AddressError::InvalidPort),
        },
{
    match port {
        Some(number) => Ok((String::from_str(host), number)),
        None => Err(AddressError::InvalidPort),
    }
}

/// Splits `host:port` at its last colon. The host is what stands before the
/// colon; what follows must read as a number.
pub fn parse_host_port(address: &str) -> (endpoint: Result<(String, i32), AddressError>)
    ensures
        match endpoint {
            Ok(pair) => exists|at: int|
                is_last_colon(address@, at) && pair.0@ == address@.subrange(0, at)
                    && decimal_i32(address@.subrange(at + 1, address@.len() as int)) == Some(
                    pair.1,
                ),
            Err(AddressError::MissingSeparator) => has_no_colon(address@),
            Err(AddressError::InvalidPort) => exists|at: int|
                is_last_colon(address@, at) && decimal_i32(
                    address@.subrange(at + 1, address@.len() as int),
                ).is_none(),
        },
{
    match find_last_colon(address) {
        None => Err(AddressError::MissingSeparator),
        Some(at) => {
            let length: usize = address.unicode_len();
            let host = address.substring_char(0, at);
            let port_text = address.substring_char(at + 1, length);
            let port = parse_decimal(port_text);
            endpoint_from_parts(host, port)
        },
    }
}

} // verus!
