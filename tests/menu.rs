use selfroles::hierarchy::GuildRole;
use selfroles::menu::{check_has_roles, menu_inputs_valid, menu_prompt, role_menu};
use selfroles::RoleData;

fn role(id: u64, position: i64) -> GuildRole {
    GuildRole { id, position, managed: false, name: format!("role {}", id) }
}

fn self_role(id: &str, label: &str, description: Option<&str>) -> RoleData {
    RoleData {
        role_id: id.to_string(),
        label: label.to_string(),
        description: description.map(|d| d.to_string()),
    }
}

fn guild() -> Vec<GuildRole> {
    vec![role(1, 0), role(11, 4), role(12, 2), role(13, 2), role(14, 7)]
}

#[test]
fn menu_lists_roles_from_highest() {
    let self_roles = vec![
        self_role("12", "Twelve", None),
        self_role("14", "Fourteen", Some("top")),
        self_role("11", "Eleven", None),
        self_role("13", "Thirteen", None),
    ];
    let menu = role_menu(&self_roles, &guild(), &vec![13, 1]);
    let labels: Vec<&str> = menu.options.iter().map(|o| o.label.as_str()).collect();
    assert_eq!(labels, vec!["Fourteen", "Eleven", "Thirteen", "Twelve"]);
    let values: Vec<&str> = menu.options.iter().map(|o| o.value.as_str()).collect();
    assert_eq!(values, vec!["14", "11", "13", "12"]);
    let defaults: Vec<bool> = menu.options.iter().map(|o| o.default).collect();
    assert_eq!(defaults, vec![false, false, true, false]);
    assert_eq!(menu.options[0].description, Some("top".to_string()));
    assert_eq!(menu.options[1].description, None);
    assert_eq!(menu.custom_id, "roleMenu");
    assert_eq!(menu.placeholder, "Select your roles");
    assert_eq!(menu.min_values, 0);
    assert_eq!(menu.max_values, 4);
}

#[test]
fn empty_menu() {
    let menu = role_menu(&Vec::new(), &guild(), &vec![]);
    assert!(menu.options.is_empty());
    assert_eq!(menu.max_values, 0);
}

#[test]
fn inputs_valid_when_roles_known() {
    let self_roles = vec![self_role("12", "a", None), self_role("1", "b", None)];
    assert!(menu_inputs_valid(&self_roles, &guild()));
}

#[test]
fn inputs_invalid_for_unknown_role() {
    let self_roles = vec![self_role("12", "a", None), self_role("99", "b", None)];
    assert!(!menu_inputs_valid(&self_roles, &guild()));
}

#[test]
fn inputs_invalid_for_non_canonical_id_text() {
    let self_roles = vec![self_role("012", "a", None)];
    assert!(!menu_inputs_valid(&self_roles, &guild()));
}

#[test]
fn inputs_invalid_beyond_bound() {
    let roles = vec![role(5, 1)];
    let self_roles: Vec<RoleData> = (0..256).map(|_| self_role("5", "a", None)).collect();
    assert!(!menu_inputs_valid(&self_roles, &roles));
    let self_roles: Vec<RoleData> = (0..255).map(|_| self_role("5", "a", None)).collect();
    assert!(menu_inputs_valid(&self_roles, &roles));
}

#[test]
fn menu_texts() {
    assert_eq!(menu_prompt(), "Select all the roles you want, and click out of the menu to confirm.");
}

#[test]
fn no_self_roles_is_refused() {
    assert_eq!(
        check_has_roles(&Vec::new()),
        Err("Sorry, there are no roles to pick from. Contact server administrator to check if this is intentional.".to_string())
    );
    assert_eq!(check_has_roles(&vec![self_role("5", "a", None)]), Ok(()));
}
