//! The network endpoint that mirrored events are sent to.

use vstd::prelude::*;
use vstd::string::StringExecFns;

verus! {

/// Port that the listener is expected on.
pub const PORT: &'static str = "1234";

/// What `str::trim` leaves of a text.
pub uninterp spec fn trimmed(text: Seq<char>) -> Seq<char>;

/// The endpoint for a host name: the name, a colon, and the port.
pub open spec fn endpoint_text(hostname: Seq<char>) -> Seq<char> {
    hostname + seq![':'] + PORT@
}

/// Calls `str::trim` of the standard library, which gives the text without the
/// white space it starts and ends with. Nothing is proved of it: the result is
/// only given the name [`trimmed`].
#[verifier::external_body]
fn trim(text: &str) -> (inner: &str)
    ensures
        inner@ == trimmed(text@),
{
    text.trim()
}

/// The endpoint for a host name that is already stripped of white space, or
/// nothing for an empty name.
pub fn host_with_port(hostname: &str) -> (endpoint: Option<String>)
    ensures
        endpoint is None <==> hostname@.len() == 0,
        endpoint matches Some(text) ==> text@ == endpoint_text(hostname@),
{
    if hostname.is_empty() {
        return None;
    }
    let mut text = String::new();
    text.append(hostname);
    proof {
        reveal_strlit(":");
    }
    text.append(":");
    text.append(PORT);
    assert(text@ =~= endpoint_text(hostname@));
    Some(text)
}

/// The endpoint for the content of a settings file that holds one host name,
/// possibly surrounded by white space, or nothing if no name is left.
pub fn parse_hostname(raw_hostname: &str) -> (endpoint: Option<String>)
    ensures
        endpoint is None <==> trimmed(raw_hostname@).len() == 0,
        endpoint matches Some(text) ==> text@ == endpoint_text(trimmed(raw_hostname@)),
{
    host_with_port(trim(raw_hostname))
}

} // verus!
