use crate::ids::{decimal, id_text, mention, mention_id};
use vstd::prelude::*;

verus! {

/// The kind of an application command.
#[derive(PartialEq, Eq, Structural, Clone, Copy, Debug)]
pub enum CommandKind {
    ChatInput,
    User,
    Message,
    Unknown,
}

/// The kind of a message component.
#[derive(PartialEq, Eq, Structural, Clone, Copy, Debug)]
pub enum ComponentKind {
    ActionRow,
    Button,
    SelectMenu,
    TextInput,
    Unknown,
}

/// An option of a command as given by the user.
#[derive(Debug)]
pub struct CommandOption {
    pub name: String,
    pub value: OptionValue,
}

/// The value of a command option.
#[derive(Debug)]
pub enum OptionValue {
    Role(u64),
    Text(String),
    SubCommand(Vec<CommandOption>),
    Other,
}

/// What an interaction asks of the bot.
#[derive(Debug)]
pub enum Route {
    /// Show the member the menu of self-roles.
    ShowRoles,
    /// Post a message with a button that opens the menu; the command's options.
    Persist(Vec<CommandOption>),
    /// Add a self-role; the subcommand's options.
    ConfigAdd(Vec<CommandOption>),
    /// Remove a self-role; the subcommand's options.
    ConfigRemove(Vec<CommandOption>),
    /// Apply the roles picked in the menu.
    SelectRoles,
}

/// A reply to an interaction.
#[derive(Debug)]
pub struct Reply {
    pub content: String,
    /// Whether only the member who asked sees it.
    pub ephemeral: bool,
}

/// Why an interaction failed.
#[derive(Debug)]
pub enum Failure {
    /// An error of the Discord API or of the database, with its text.
    Unexpected(String),
    /// A command refused what it was asked, with the reason.
    Refused(String),
}

/// The message that posts the menu's button.
#[derive(Debug)]
pub struct PersistMessage {
    pub content: String,
    pub button_id: String,
    pub button_label: String,
}

pub open spec fn first_subcommand(options: Seq<CommandOption>, name: Seq<char>) -> bool {
    options.len() > 0 && options[0].value is SubCommand && options[0].name@ == name
}

pub open spec fn subcommand_options(options: Seq<CommandOption>) -> Vec<CommandOption> {
    options[0].value->SubCommand_0
}

/// `i` is the first option with the given name whose value is a role.
pub open spec fn first_role_option(options: Seq<CommandOption>, name: Seq<char>, i: int) -> bool {
    &&& 0 <= i < options.len()
    &&& options[i].name@ == name && options[i].value is Role
    &&& forall|j: int| 0 <= j < i ==> !(options[j].name@ == name && options[j].value is Role)
}

/// `i` is the first option with the given name whose value is a text.
pub open spec fn first_text_option(options: Seq<CommandOption>, name: Seq<char>, i: int) -> bool {
    &&& 0 <= i < options.len()
    &&& options[i].name@ == name && options[i].value is Text
    &&& forall|j: int| 0 <= j < i ==> !(options[j].name@ == name && options[j].value is Text)
}

pub open spec fn error_text(detail: Seq<char>) -> Seq<char> {
    "Sorry, an unexpected error occured: "@ + detail
        + "\nPlease contact an administrator about this."@
}

pub open spec fn removed_text(role: u64) -> Seq<char> {
    "Successfully removed selfrole "@ + mention(decimal(role as nat))
}

pub open spec fn not_self_role_text(role: u64) -> Seq<char> {
    "Role "@ + mention(decimal(role as nat)) + " is not a selfrole, so it cannot be removed."@
}

fn text_is(s: &String, lit: &str) -> (r: bool)
    ensures
        r == (s@ == lit@),
{
    *s == String::from_str(lit)
}

/// Where a command goes: `roles`, `persist`, and `config` with its first
/// option the subcommand `add` or `remove`, all as chat input commands.
/// `None` for any other command.
pub fn route_command(kind: CommandKind, name: &String, options: Vec<CommandOption>) -> (r: Option<
    Route,
>)
    ensures
        kind != CommandKind::ChatInput ==> r is None,
        kind == CommandKind::ChatInput ==> {
            if name@ == "roles"@ {
                r matches Some(Route::ShowRoles)
            } else if name@ == "persist"@ {
                r matches Some(Route::Persist(o)) && o@ == options@
            } else if name@ == "config"@ && first_subcommand(options@, "add"@) {
                r matches Some(Route::ConfigAdd(o)) && o == subcommand_options(options@)
            } else if name@ == "config"@ && first_subcommand(options@, "remove"@) {
                r matches Some(Route::ConfigRemove(o)) && o == subcommand_options(options@)
            } else {
                r is None
            }
        },
{
    if kind != CommandKind::ChatInput {
        return None;
    }
    if text_is(name, "roles") {
        return Some(Route::ShowRoles);
    }
    if text_is(name, "persist") {
        return Some(Route::Persist(options));
    }
    if !text_is(name, "config") || options.len() == 0 {
        return None;
    }
    let mut options = options;
    let ghost all = options@;
    let first = options.remove(0);
    assert(first == all[0]);
    match first.value {
        OptionValue::SubCommand(sub) => {
            if text_is(&first.name, "add") {
                Some(Route::ConfigAdd(sub))
            } else if text_is(&first.name, "remove") {
                Some(Route::ConfigRemove(sub))
            } else {
                None
            }
        },
        _ => None,
    }
}

/// Where a component interaction goes: the menu `roleMenu` and the button
/// `selectRoles`. `None` for any other component.
pub fn route_component(kind: ComponentKind, custom_id: &String) -> (r: Option<Route>)
    ensures
        (kind == ComponentKind::SelectMenu && custom_id@ == "roleMenu"@) ==> r matches Some(
            Route::SelectRoles,
        ),
        (kind == ComponentKind::Button && custom_id@ == "selectRoles"@) ==> r matches Some(
            Route::ShowRoles,
        ),
        !(kind == ComponentKind::SelectMenu && custom_id@ == "roleMenu"@) && !(kind
            == ComponentKind::Button && custom_id@ == "selectRoles"@) ==> r is None,
{
    if kind == ComponentKind::SelectMenu && text_is(custom_id, "roleMenu") {
        Some(Route::SelectRoles)
    } else if kind == ComponentKind::Button && text_is(custom_id, "selectRoles") {
        Some(Route::ShowRoles)
    } else {
        None
    }
}

/// The value of the first option named `name` that holds a role.
pub fn find_role_option(options: &Vec<CommandOption>, name: &str) -> (r: Option<u64>)
    ensures
        r is None <==> forall|j: int|
            0 <= j < options@.len() ==> !(options@[j].name@ == name@ && options@[j].value is Role),
        r matches Some(v) ==> exists|i: int|
            #[trigger] first_role_option(options@, name@, i) && options@[i].value == OptionValue::Role(
                v,
            ),
{
    let wanted = String::from_str(name);
    let mut i: usize = 0;
    while i < options.len()
        invariant
            i <= options@.len(),
            wanted@ == name@,
            forall|j: int|
                0 <= j < i ==> !(options@[j].name@ == name@ && options@[j].value is Role),
        decreases options@.len() - i,
    {
        let o = &options[i];
        match o.value {
            OptionValue::Role(v) => {
                if o.name == wanted {
                    assert(first_role_option(options@, name@, i as int));
                    assert(options@[i as int].value == OptionValue::Role(v));
                    return Some(v);
                }
            },
            _ => {},
        }
        i = i + 1;
    }
    None
}

/// The value of the first option named `name` that holds a text.
pub fn find_text_option(options: &Vec<CommandOption>, name: &str) -> (r: Option<String>)
    ensures
        r is None <==> forall|j: int|
            0 <= j < options@.len() ==> !(options@[j].name@ == name@ && options@[j].value is Text),
        r matches Some(v) ==> exists|i: int|
            #[trigger] first_text_option(options@, name@, i) && v@ == options@[i].value->Text_0@,
{
    let wanted = String::from_str(name);
    let mut i: usize = 0;
    while i < options.len()
        invariant
            i <= options@.len(),
            wanted@ == name@,
            forall|j: int|
                0 <= j < i ==> !(options@[j].name@ == name@ && options@[j].value is Text),
        decreases options@.len() - i,
    {
        let o = &options[i];
        match &o.value {
            OptionValue::Text(t) => {
                if o.name == wanted {
                    assert(first_text_option(options@, name@, i as int));
                    return Some(t.clone());
                }
            },
            _ => {},
        }
        i = i + 1;
    }
    None
}

/// The text of the reply to an unexpected error, around the error's own text.
pub fn format_error(detail: &str) -> (r: String)
    ensures
        r@ == error_text(detail@),
{
    let mut r = String::from_str("Sorry, an unexpected error occured: ");
    r.append(detail);
    r.append("\nPlease contact an administrator about this.");
    r
}

/// The reply to a failed interaction, seen only by the member who asked:
/// an unexpected error is wrapped in an apology, a refusal is shown as it is.
pub fn failure_reply(f: &Failure) -> (r: Reply)
    ensures
        r.ephemeral,
        r.content@ == match *f {
            Failure::Unexpected(d) => error_text(d@),
            Failure::Refused(m) => m@,
        },
{
    match f {
        Failure::Unexpected(d) => Reply { content: format_error(d.as_str()), ephemeral: true },
        Failure::Refused(m) => Reply { content: m.clone(), ephemeral: true },
    }
}

/// The outcome of removing the self-role `role`, where `removed` tells
/// whether the guild had it as a self-role.
pub fn remove_outcome(role: u64, removed: bool) -> (r: Result<String, String>)
    ensures
        removed ==> (r matches Ok(m) && m@ == removed_text(role)),
        !removed ==> (r matches Err(m) && m@ == not_self_role_text(role)),
{
    if removed {
        let mut m = String::from_str("Successfully removed selfrole ");
        m.append(mention_id(role).as_str());
        Ok(m)
    } else {
        let mut m = String::from_str("Role ");
        m.append(mention_id(role).as_str());
        m.append(" is not a selfrole, so it cannot be removed.");
        Err(m)
    }
}

/// The message with the button that opens the role menu: its text is the
/// `content` option where given, else a default.
pub fn persist_message(options: &Vec<CommandOption>) -> (r: PersistMessage)
    ensures
        r.button_id@ == "selectRoles"@,
        r.button_label@ == "Get Roles"@,
        (forall|j: int|
            0 <= j < options@.len() ==> !(options@[j].name@ == "content"@ && options@[j].value is Text))
            ==> r.content@ == "GET ROLES HERE"@,
        forall|i: int| #[trigger]
            first_text_option(options@, "content"@, i) ==> r.content@ == options@[i].value->Text_0@,
{
    let content = match find_text_option(options, "content") {
        Some(c) => c,
        None => String::from_str("GET ROLES HERE"),
    };
    PersistMessage {
        content,
        button_id: String::from_str("selectRoles"),
        button_label: String::from_str("Get Roles"),
    }
}

} // verus!
