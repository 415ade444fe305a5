//! The two WebSocket endpoints that the front exposes to the intermediary,
//! and their addresses as the back dials them.

use vstd::prelude::*;
use vstd::string::StringExecFns;

verus! {

/// The path of the control channel.
pub open spec fn control_path() -> Seq<char> {
    seq!['/', 'c', 'o', 'n', 't', 'r', 'o', 'l']
}

/// The path of the data channels.
pub open spec fn connect_path() -> Seq<char> {
    seq!['/', 'c', 'o', 'n', 'n', 'e', 'c', 't']
}

/// The path on which the front serves the control channel.
pub fn control_route() -> (path: &'static str)
    ensures
        path@ == control_path(),
{
    proof {
        reveal_strlit("/control");
        assert("/control"@ =~= control_path());
    }
    "/control"
}

/// The path on which the front serves the data channels.
pub fn connect_route() -> (path: &'static str)
    ensures
        path@ == connect_path(),
{
    proof {
        reveal_strlit("/connect");
        assert("/connect"@ =~= connect_path());
    }
    "/connect"
}

/// The address of the control channel behind the intermediary at `server`.
pub fn control_url(server: &str) -> (url: String)
    ensures
        url@ == server@ + control_path(),
{
    String::from_str(server).concat(control_route())
}

/// The address of the data channels behind the intermediary at `server`.
pub fn connect_url(server: &str) -> (url: String)
    ensures
        url@ == server@ + connect_path(),
{
    String::from_str(server).concat(connect_route())
}

} // verus!
