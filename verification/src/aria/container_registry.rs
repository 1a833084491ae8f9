//! The container registry: the restart policy of an upload that names
//! none, how stored names are read back, and the error of a missing
//! container.

use vstd::prelude::*;
use vstd::string::*;
use crate::aria::ids::{uuid_hyphenated, uuid_text};
use crate::aria::registry::RegistryError;
use crate::aria::types::{ContainerState, RestartPolicy};

verus! {

/// Restart policy of an uploaded container that names none.
pub fn default_restart_policy() -> (p: RestartPolicy)
    ensures
        p == RestartPolicy::No,
{
    RestartPolicy::No
}

/// The restart policy of a stored container: the policy its name denotes,
/// and `no` for a name that denotes none.
pub fn stored_restart_policy(s: &str) -> (p: RestartPolicy)
    ensures
        p == match RestartPolicy::from_name(s@) {
            Some(v) => v,
            None => RestartPolicy::No,
        },
{
    match RestartPolicy::parse_str(s) {
        Ok(v) => v,
        Err(_) => RestartPolicy::No,
    }
}

/// The state of a stored container: the state its name denotes, and
/// `pending` for a name that denotes none.
pub fn stored_container_state(s: &str) -> (c: ContainerState)
    ensures
        c == match ContainerState::from_name(s@) {
            Some(v) => v,
            None => ContainerState::Pending,
        },
{
    match ContainerState::parse_str(s) {
        Ok(v) => v,
        Err(_) => ContainerState::Pending,
    }
}

/// The error of an id that names no active container.
pub fn container_not_found(id: u128) -> (e: RegistryError)
    ensures
        e matches RegistryError::NotFound { entity, id: t } && entity@ == "container"@ && t@
            == uuid_hyphenated(id),
{
    RegistryError::NotFound { entity: String::from_str("container"), id: uuid_text(id) }
}

} // verus!
