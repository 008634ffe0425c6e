//! The fixed configuration surface: the managed network's name, the two
//! orchestration label keys that alias derivation reads, and the one event
//! action the watcher reacts to.

use vstd::prelude::*;
use vstd::string::StringExecFns;

verus! {

/// The name of the managed network.
pub open spec fn managed_network_name() -> Seq<char> {
    "apps-internal"@
}

/// The label key that carries the orchestration project name.
pub open spec fn project_label_key() -> Seq<char> {
    "com.docker.compose.project"@
}

/// The label key that carries the orchestration service name.
pub open spec fn service_label_key() -> Seq<char> {
    "com.docker.compose.service"@
}

/// The event action that marks a freshly started container.
pub open spec fn start_action() -> Seq<char> {
    "start"@
}

/// The managed network's name as a string slice.
pub fn network_name() -> (r: &'static str)
    ensures
        r@ == managed_network_name(),
{
    "apps-internal"
}

/// The managed network's name as an owned string.
pub fn network_name_string() -> (r: String)
    ensures
        r@ == managed_network_name(),
{
    String::from_str(network_name())
}

/// The project label key as an owned string.
pub fn project_key_string() -> (r: String)
    ensures
        r@ == project_label_key(),
{
    String::from_str("com.docker.compose.project")
}

/// The service label key as an owned string.
pub fn service_key_string() -> (r: String)
    ensures
        r@ == service_label_key(),
{
    String::from_str("com.docker.compose.service")
}

/// The start action as an owned string.
pub fn start_action_string() -> (r: String)
    ensures
        r@ == start_action(),
{
    String::from_str("start")
}

} // verus!
