use selfroles::commands::{
    failure_reply, find_role_option, find_text_option, format_error, persist_message, remove_outcome,
    route_command, route_component, CommandKind, CommandOption, ComponentKind, Failure, OptionValue,
    Route,
};

fn opt(name: &str, value: OptionValue) -> CommandOption {
    CommandOption { name: name.to_string(), value }
}

fn text(s: &str) -> OptionValue {
    OptionValue::Text(s.to_string())
}

#[test]
fn routes_roles_command() {
    let r = route_command(CommandKind::ChatInput, &"roles".to_string(), vec![]);
    assert!(matches!(r, Some(Route::ShowRoles)));
}

#[test]
fn routes_persist_command_with_options() {
    let r = route_command(CommandKind::ChatInput, &"persist".to_string(), vec![opt("content", text("hi"))]);
    match r {
        Some(Route::Persist(o)) => {
            assert_eq!(o.len(), 1);
            assert_eq!(o[0].name, "content");
        }
        _ => panic!("expected persist"),
    }
}

#[test]
fn routes_config_subcommands() {
    let add = vec![opt("add", OptionValue::SubCommand(vec![opt("role", OptionValue::Role(5))]))];
    match route_command(CommandKind::ChatInput, &"config".to_string(), add) {
        Some(Route::ConfigAdd(o)) => assert_eq!(find_role_option(&o, "role"), Some(5)),
        _ => panic!("expected config add"),
    }
    let remove = vec![opt("remove", OptionValue::SubCommand(vec![opt("role", OptionValue::Role(6))]))];
    match route_command(CommandKind::ChatInput, &"config".to_string(), remove) {
        Some(Route::ConfigRemove(o)) => assert_eq!(find_role_option(&o, "role"), Some(6)),
        _ => panic!("expected config remove"),
    }
}

#[test]
fn unknown_commands_have_no_route() {
    assert!(route_command(CommandKind::ChatInput, &"other".to_string(), vec![]).is_none());
    assert!(route_command(CommandKind::User, &"roles".to_string(), vec![]).is_none());
    assert!(route_command(CommandKind::ChatInput, &"config".to_string(), vec![]).is_none());
    let wrong = vec![opt("edit", OptionValue::SubCommand(vec![]))];
    assert!(route_command(CommandKind::ChatInput, &"config".to_string(), wrong).is_none());
    let not_sub = vec![opt("add", text("x"))];
    assert!(route_command(CommandKind::ChatInput, &"config".to_string(), not_sub).is_none());
}

#[test]
fn routes_components() {
    assert!(matches!(
        route_component(ComponentKind::SelectMenu, &"roleMenu".to_string()),
        Some(Route::SelectRoles)
    ));
    assert!(matches!(
        route_component(ComponentKind::Button, &"selectRoles".to_string()),
        Some(Route::ShowRoles)
    ));
    assert!(route_component(ComponentKind::Button, &"roleMenu".to_string()).is_none());
    assert!(route_component(ComponentKind::SelectMenu, &"selectRoles".to_string()).is_none());
}

#[test]
fn finds_options_by_name_and_kind() {
    let options = vec![
        opt("label", OptionValue::Role(3)),
        opt("role", text("not a role")),
        opt("role", OptionValue::Role(9)),
        opt("label", text("Nice")),
        opt("label", text("Second")),
    ];
    assert_eq!(find_role_option(&options, "role"), Some(9));
    assert_eq!(find_text_option(&options, "label"), Some("Nice".to_string()));
    assert_eq!(find_text_option(&options, "description"), None);
    assert_eq!(find_role_option(&options, "description"), None);
}

#[test]
fn formats_unexpected_error() {
    assert_eq!(
        format_error("Missing Access"),
        "Sorry, an unexpected error occured: Missing Access\nPlease contact an administrator about this."
    );
}

#[test]
fn failure_replies_are_ephemeral() {
    let r = failure_reply(&Failure::Unexpected("boom".to_string()));
    assert!(r.ephemeral);
    assert_eq!(r.content, format_error("boom"));
    let r = failure_reply(&Failure::Refused("No.".to_string()));
    assert!(r.ephemeral);
    assert_eq!(r.content, "No.");
}

#[test]
fn remove_outcomes() {
    assert_eq!(remove_outcome(77, true), Ok("Successfully removed selfrole <@&77>".to_string()));
    assert_eq!(
        remove_outcome(77, false),
        Err("Role <@&77> is not a selfrole, so it cannot be removed.".to_string())
    );
}

#[test]
fn persist_uses_content_or_default() {
    let m = persist_message(&vec![opt("content", text("Pick here"))]);
    assert_eq!(m.content, "Pick here");
    assert_eq!(m.button_id, "selectRoles");
    assert_eq!(m.button_label, "Get Roles");
    let m = persist_message(&vec![]);
    assert_eq!(m.content, "GET ROLES HERE");
}
