use vstd::prelude::*;

pub mod commands;
pub mod hierarchy;
pub mod ids;
pub mod menu;
pub mod selection;

verus! {

/// A self-role as stored for a guild: the role's id as text, the label shown
/// in the menu, and an optional description.
#[derive(Debug)]
pub struct RoleData {
    pub role_id: String,
    pub label: String,
    pub description: Option<String>,
}

} // verus!
