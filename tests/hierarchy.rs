use selfroles::hierarchy::{added_message, find_role, highest_role, is_below, plan_add, AddError, GuildRole};

fn role(id: u64, position: i64, managed: bool, name: &str) -> GuildRole {
    GuildRole { id, position, managed, name: name.to_string() }
}

fn guild() -> Vec<GuildRole> {
    vec![
        role(100, 0, false, "@everyone"),
        role(201, 1, false, "Artists"),
        role(202, 2, true, "Integration"),
        role(203, 3, false, "Bot"),
        role(204, 5, false, "Moderators"),
        role(205, 3, false, "Same position"),
    ]
}

#[test]
fn orders_roles_by_position_then_id() {
    assert!(is_below(&role(1, 1, false, ""), &role(2, 2, false, "")));
    assert!(!is_below(&role(2, 2, false, ""), &role(1, 1, false, "")));
    assert!(is_below(&role(1, 3, false, ""), &role(2, 3, false, "")));
    assert!(!is_below(&role(2, 3, false, ""), &role(1, 3, false, "")));
    assert!(!is_below(&role(1, 3, false, ""), &role(1, 3, false, "")));
}

#[test]
fn finds_first_role_by_id() {
    let roles = guild();
    assert_eq!(find_role(&roles, 203), Some(3));
    assert_eq!(find_role(&roles, 999), None);
}

#[test]
fn highest_role_of_member() {
    let roles = guild();
    assert_eq!(highest_role(&roles, &vec![201, 203]), Some(3));
    assert_eq!(highest_role(&roles, &vec![205, 203]), Some(5));
    assert_eq!(highest_role(&roles, &vec![999]), None);
}

#[test]
fn adds_role_below_bot_with_its_name() {
    let row = plan_add(100, 201, None, None, &guild(), &vec![203]).unwrap();
    assert_eq!(row.role_id, "201");
    assert_eq!(row.label, "Artists");
    assert_eq!(row.description, None);
}

#[test]
fn adds_role_with_given_label_and_description() {
    let row = plan_add(
        100,
        201,
        Some("Art".to_string()),
        Some("For artists".to_string()),
        &guild(),
        &vec![203],
    )
    .unwrap();
    assert_eq!(row.role_id, "201");
    assert_eq!(row.label, "Art");
    assert_eq!(row.description, Some("For artists".to_string()));
}

#[test]
fn refuses_unknown_role() {
    let err = plan_add(100, 999, None, None, &guild(), &vec![203]).err().unwrap();
    assert_eq!(err, AddError::RoleNotFound);
    assert_eq!(err.message(), "Couldn't find the selected role.");
}

#[test]
fn refuses_managed_role() {
    let err = plan_add(100, 202, None, None, &guild(), &vec![204]).err().unwrap();
    assert_eq!(err, AddError::ManagedRole { role: 202 });
    assert_eq!(err.message(), "You cannot add a managed role <@&202> to selfroles.");
}

#[test]
fn refuses_everyone_role() {
    let err = plan_add(100, 100, None, None, &guild(), &vec![204]).err().unwrap();
    assert_eq!(err, AddError::EveryoneRole);
    assert_eq!(err.message(), "You cannot add @everyone role to selfroles.");
}

#[test]
fn refuses_role_as_high_as_bot() {
    let err = plan_add(100, 203, None, None, &guild(), &vec![203]).err().unwrap();
    assert_eq!(err, AddError::AboveBot { role: 203, highest: 203 });
    assert_eq!(
        err.message(),
        "You cannot add role <@&203> to selfroles as it is higher than, or equally high as my highest role <@&203>."
    );
}

#[test]
fn refuses_role_above_bot() {
    let err = plan_add(100, 204, None, None, &guild(), &vec![201, 203]).err().unwrap();
    assert_eq!(err, AddError::AboveBot { role: 204, highest: 203 });
}

#[test]
fn equal_position_is_ordered_by_id() {
    // 205 and 203 share a position; the larger id is the higher role.
    let err = plan_add(100, 205, None, None, &guild(), &vec![203]).err().unwrap();
    assert_eq!(err, AddError::AboveBot { role: 205, highest: 203 });
    assert!(plan_add(100, 203, None, None, &guild(), &vec![205]).is_ok());
}

#[test]
fn bot_without_roles_adds_nothing() {
    let err = plan_add(100, 201, None, None, &guild(), &vec![]).err().unwrap();
    assert_eq!(err, AddError::AboveBot { role: 201, highest: 100 });
    assert_eq!(
        err.message(),
        "You cannot add role <@&201> to selfroles as it is higher than, or equally high as my highest role <@&100>."
    );
}

#[test]
fn added_message_mentions_role() {
    assert_eq!(added_message(201), "Successfully added selfrole <@&201>.");
}
