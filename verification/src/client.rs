//! The compositor control-socket protocol: path resolution from the
//! instance signature, the two request strings, and parsing of the
//! active-workspace response. The socket I/O itself is done by the caller;
//! every operation opens a fresh connection and makes one round-trip.

use vstd::prelude::*;
use crate::errors::BarError;
use crate::text::{dec_str, dec_int_str, u64_to_string, i64_to_string};

verus! {

/// The control socket path for a given user id and instance signature:
/// `/run/user/<uid>/hypr/<signature>/.socket.sock`.
pub open spec fn socket_path_spec(uid: nat, signature: Seq<char>) -> Seq<char> {
    "/run/user/"@ + dec_str(uid) + "/hypr/"@ + signature + "/.socket.sock"@
}

/// Resolve the control socket path from the instance signature as found in
/// the environment; an absent signature means the bar is unconfigured.
pub fn socket_path(uid: u64, signature: &Option<String>) -> (r: Result<String, BarError>)
    ensures
        signature matches Some(sig) ==> r matches Ok(p) && p@ == socket_path_spec(
            uid as nat,
            sig@,
        ),
        signature is None ==> r == Err::<String, BarError>(BarError::ConfigMissing),
{
    match signature {
        Some(sig) => {
            let mut p = String::from_str("/run/user/");
            p.append(u64_to_string(uid).as_str());
            p.append("/hypr/");
            p.append(sig.as_str());
            p.append("/.socket.sock");
            assert(p@ =~= socket_path_spec(uid as nat, sig@));
            Ok(p)
        },
        None => Err(BarError::ConfigMissing),
    }
}

/// The request that queries the active workspace as JSON.
pub fn query_command() -> (r: &'static str)
    ensures
        r@ == "j/activeworkspace"@,
{
    "j/activeworkspace"
}

/// The numeric `id` field of a response text, when that text is a JSON
/// object carrying one that fits a 64-bit signed integer; `None` otherwise.
/// A function of the text alone.
pub uninterp spec fn workspace_id_of(s: Seq<char>) -> Option<i64>;

/// Relies on serde_json::from_str::<Value>, Value::get and Value::as_i64:
/// together they yield the numeric `id` field of a JSON object, and nothing
/// on any other text. The result depends on the text alone.
#[verifier::external_body]
fn json_workspace_id(s: &str) -> (r: Option<i64>)
    ensures
        r == workspace_id_of(s@),
{
    match serde_json::from_str::<serde_json::Value>(s) {
        Ok(v) => v.get("id").and_then(|f| f.as_i64()),
        Err(_) => None,
    }
}

/// Parse the compositor's answer to the active-workspace query. Extra
/// fields in the object are ignored; anything without a numeric `id`
/// is a protocol error.
pub fn parse_active_workspace(response: &str) -> (r: Result<i64, BarError>)
    ensures
        workspace_id_of(response@) matches Some(id) ==> r == Ok::<i64, BarError>(id),
        workspace_id_of(response@) is None ==> r == Err::<i64, BarError>(
            BarError::ProtocolError,
        ),
{
    match json_workspace_id(response) {
        Some(id) => Ok(id),
        None => Err(BarError::ProtocolError),
    }
}

/// The request that switches to a workspace: `dispatch workspace <id>`.
pub open spec fn dispatch_command_spec(id: int) -> Seq<char> {
    "dispatch workspace "@ + dec_int_str(id)
}

/// Build the workspace-switch request. The bytes written to the socket for
/// a click on button `id` are exactly these, and nothing more.
pub fn dispatch_command(id: i64) -> (r: String)
    ensures
        r@ == dispatch_command_spec(id as int),
{
    let mut r = String::from_str("dispatch workspace ");
    r.append(i64_to_string(id).as_str());
    assert(r@ =~= dispatch_command_spec(id as int));
    r
}

} // verus!
