//! Team definitions as the team executor reads them.

use vstd::prelude::*;
use crate::aria::types::TeamMode;
use crate::json::JsonValue;

verus! {

/// A registered team definition.
#[derive(Debug, Clone)]
pub struct AriaTeam {
    pub id: u128,
    pub tenant_id: String,
    pub name: String,
    pub description: String,
    pub mode: TeamMode,
    pub members: Vec<JsonValue>,
    pub shared_context: Option<JsonValue>,
    pub timeout_secs: Option<i64>,
    pub max_turns: Option<i64>,
    pub status: String,
}

/// The mode of a stored team: the mode its name denotes, and the
/// coordinator mode for a name that denotes none.
pub fn stored_team_mode(s: &str) -> (m: TeamMode)
    ensures
        m == match TeamMode::from_name(s@) {
            Some(v) => v,
            None => TeamMode::Coordinator,
        },
{
    match TeamMode::parse_str(s) {
        Ok(v) => v,
        Err(_) => TeamMode::Coordinator,
    }
}

} // verus!
