//! The processing node's check of a capture node's handshake query.
use vstd::prelude::*;

verus! {

/// The word that follows the first `name=` in a query, as the regular
/// expression `name=(\w+)` finds it.
pub uninterp spec fn name_in_query(query: Seq<char>) -> Option<Seq<char>>;

/// Relies on regex::Regex::captures with the pattern `name=(\w+)`: group 1 of
/// the leftmost match; `\w+` matches at least one character.
#[verifier::external_body]
fn query_name(query: &str) -> (r: Option<String>)
    ensures
        r is None <==> name_in_query(query@) is None,
        r matches Some(n) ==> name_in_query(query@) == Some(n@) && n@.len() > 0,
{
    let re = regex::Regex::new(r"name=(\w+)").ok()?;
    re.captures(query).and_then(|c| c.get(1)).map(|m| m.as_str().to_string())
}

/// Why a handshake is turned down.
#[derive(Clone, Copy, Debug, PartialEq, Eq, Structural)]
pub enum Rejection {
    /// The query names no node.
    Unauthorized,
}

impl Rejection {
    /// The HTTP status sent back.
    pub fn status(&self) -> (r: u16)
        ensures
            r == 401,
    {
        match self {
            Rejection::Unauthorized => 401,
        }
    }
}

/// Accepts a capture node that names itself in the handshake query and
/// returns that name.
pub fn accept_peer(query: &str) -> (r: Result<String, Rejection>)
    ensures
        r is Ok <==> name_in_query(query@) is Some,
        r matches Ok(n) ==> name_in_query(query@) == Some(n@),
        r matches Err(e) ==> e == Rejection::Unauthorized,
{
    match query_name(query) {
        Some(n) => Ok(n),
        None => Err(Rejection::Unauthorized),
    }
}

} // verus!
