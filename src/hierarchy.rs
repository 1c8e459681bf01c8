use crate::ids::{decimal, holds_id, id_text, mention, mention_id};
use crate::RoleData;
use vstd::prelude::*;

verus! {

/// A role of a guild, with what the self-role rules read of it.
#[derive(Debug)]
pub struct GuildRole {
    pub id: u64,
    pub position: i64,
    pub managed: bool,
    pub name: String,
}

/// The guild's order on roles: by position, and by id where positions are equal.
pub open spec fn role_below(a: GuildRole, b: GuildRole) -> bool {
    a.position < b.position || (a.position == b.position && a.id < b.id)
}

/// `i` is the first role of `roles` with the given id.
pub open spec fn first_with_id(roles: Seq<GuildRole>, id: u64, i: int) -> bool {
    &&& 0 <= i < roles.len()
    &&& roles[i].id == id
    &&& forall|j: int| 0 <= j < i ==> roles[j].id != id
}

/// Role `k` of the guild is one that the member with role ids `mine` holds.
pub open spec fn held(roles: Seq<GuildRole>, mine: Seq<u64>, k: int) -> bool {
    0 <= k < roles.len() && mine.contains(roles[k].id)
}

/// Role `k` is a highest of the roles held.
pub open spec fn highest_held(roles: Seq<GuildRole>, mine: Seq<u64>, k: int) -> bool {
    &&& held(roles, mine, k)
    &&& forall|j: int| held(roles, mine, j) ==> !role_below(#[trigger] roles[k], roles[j])
}

/// Some role held stands above `r`.
pub open spec fn outranks(roles: Seq<GuildRole>, mine: Seq<u64>, r: GuildRole) -> bool {
    exists|k: int| held(roles, mine, k) && role_below(r, #[trigger] roles[k])
}

/// Why a role cannot become a self-role.
#[derive(PartialEq, Eq, Structural, Clone, Copy, Debug)]
pub enum AddError {
    /// The guild has no role with the id given.
    RoleNotFound,
    /// The role is managed by an integration.
    ManagedRole { role: u64 },
    /// The role is the guild's @everyone role.
    EveryoneRole,
    /// The role is not below the bot's highest role (the @everyone role,
    /// the guild's own id, where the bot holds none).
    AboveBot { role: u64, highest: u64 },
}

pub open spec fn add_error_text(e: AddError) -> Seq<char> {
    match e {
        AddError::RoleNotFound => "Couldn't find the selected role."@,
        AddError::ManagedRole { role } => "You cannot add a managed role "@ + mention(
            decimal(role as nat),
        ) + " to selfroles."@,
        AddError::EveryoneRole => "You cannot add @everyone role to selfroles."@,
        AddError::AboveBot { role, highest } => "You cannot add role "@ + mention(
            decimal(role as nat),
        ) + " to selfroles as it is higher than, or equally high as my highest role "@
            + mention(decimal(highest as nat)) + "."@,
    }
}

pub open spec fn added_text(role: u64) -> Seq<char> {
    "Successfully added selfrole "@ + mention(decimal(role as nat)) + "."@
}

impl AddError {
    /// The text of the reply that reports the error.
    pub fn message(&self) -> (r: String)
        ensures
            r@ == add_error_text(*self),
    {
        match self {
            AddError::RoleNotFound => String::from_str("Couldn't find the selected role."),
            AddError::ManagedRole { role } => {
                let mut r = String::from_str("You cannot add a managed role ");
                r.append(mention_id(*role).as_str());
                r.append(" to selfroles.");
                r
            },
            AddError::EveryoneRole => String::from_str(
                "You cannot add @everyone role to selfroles.",
            ),
            AddError::AboveBot { role, highest } => {
                let mut r = String::from_str("You cannot add role ");
                r.append(mention_id(*role).as_str());
                r.append(
                    " to selfroles as it is higher than, or equally high as my highest role ",
                );
                r.append(mention_id(*highest).as_str());
                r.append(".");
                r
            },
        }
    }
}

/// The text of the reply to a role added to the self-roles.
pub fn added_message(role: u64) -> (r: String)
    ensures
        r@ == added_text(role),
{
    let mut r = String::from_str("Successfully added selfrole ");
    r.append(mention_id(role).as_str());
    r.append(".");
    r
}

/// Whether `a` stands below `b` in the guild's order on roles.
pub fn is_below(a: &GuildRole, b: &GuildRole) -> (r: bool)
    ensures
        r == role_below(*a, *b),
{
    a.position < b.position || (a.position == b.position && a.id < b.id)
}

/// The first role of `roles` with the given id, if any.
pub fn find_role(roles: &Vec<GuildRole>, id: u64) -> (r: Option<usize>)
    ensures
        r matches Some(i) ==> first_with_id(roles@, id, i as int),
        r is None <==> forall|j: int| 0 <= j < roles@.len() ==> roles@[j].id != id,
{
    let mut i: usize = 0;
    while i < roles.len()
        invariant
            i <= roles@.len(),
            forall|j: int| 0 <= j < i ==> roles@[j].id != id,
        decreases roles@.len() - i,
    {
        if roles[i].id == id {
            return Some(i);
        }
        i = i + 1;
    }
    None
}

/// A highest of the roles that the member with role ids `mine` holds, if
/// any.
pub fn highest_role(roles: &Vec<GuildRole>, mine: &Vec<u64>) -> (r: Option<usize>)
    ensures
        r matches Some(k) ==> highest_held(roles@, mine@, k as int),
        r is None <==> forall|j: int| !held(roles@, mine@, j),
{
    let mut best: Option<usize> = None;
    let mut i: usize = 0;
    while i < roles.len()
        invariant
            i <= roles@.len(),
            best matches Some(b) ==> b < i && held(roles@, mine@, b as int) && forall|j: int|
                0 <= j < i && held(roles@, mine@, j) ==> !role_below(
                    #[trigger] roles@[b as int],
                    roles@[j],
                ),
            best is None ==> forall|j: int| 0 <= j < i ==> !held(roles@, mine@, j),
        decreases roles@.len() - i,
    {
        if holds_id(mine, roles[i].id) {
            match best {
                None => {
                    best = Some(i);
                },
                Some(b) => {
                    if !is_below(&roles[i], &roles[b]) {
                        best = Some(i);
                    }
                },
            }
        }
        i = i + 1;
    }
    best
}

/// Decides whether the guild role with id `role` may become a self-role of
/// the guild `guild_id`, for a bot whose member holds the role ids `my_roles`:
/// the role must exist, not be managed, not be @everyone, and stand strictly
/// below the bot's highest role.
/// On success, the row to store: the role's id as text, the label given or
/// else the role's name, and the description given.
pub fn plan_add(
    guild_id: u64,
    role: u64,
    label: Option<String>,
    description: Option<String>,
    guild_roles: &Vec<GuildRole>,
    my_roles: &Vec<u64>,
) -> (r: Result<RoleData, AddError>)
    ensures
        (forall|j: int| 0 <= j < guild_roles@.len() ==> guild_roles@[j].id != role) <==> r matches Err(
            AddError::RoleNotFound,
        ),
        forall|i: int| #[trigger]
            first_with_id(guild_roles@, role, i) ==> {
                let found = guild_roles@[i];
                if found.managed {
                    r matches Err(AddError::ManagedRole { role: x }) && x == role
                } else if role == guild_id {
                    r matches Err(AddError::EveryoneRole)
                } else if !outranks(guild_roles@, my_roles@, found) {
                    r matches Err(AddError::AboveBot { role: x, highest: h }) && x == role && if exists|
                        j: int,
                    | held(guild_roles@, my_roles@, j) {
                        exists|k: int| #[trigger]
                            highest_held(guild_roles@, my_roles@, k) && guild_roles@[k].id == h
                    } else {
                        h == guild_id
                    }
                } else {
                    r matches Ok(row) && row.role_id@ == decimal(role as nat) && row.label@ == (
                    match label {
                        Some(l) => l@,
                        None => found.name@,
                    }) && row.description == description
                }
            },
{
    let i = match find_role(guild_roles, role) {
        None => {
            return Err(AddError::RoleNotFound);
        },
        Some(i) => i,
    };
    let found = &guild_roles[i];
    if found.managed {
        return Err(AddError::ManagedRole { role: found.id });
    }
    if found.id == guild_id {
        return Err(AddError::EveryoneRole);
    }
    match highest_role(guild_roles, my_roles) {
        Some(k) => {
            if !is_below(found, &guild_roles[k]) {
                assert(!outranks(guild_roles@, my_roles@, *found)) by {
                    assert forall|j: int| held(guild_roles@, my_roles@, j) implies !role_below(
                        *found,
                        #[trigger] guild_roles@[j],
                    ) by {
                        assert(!role_below(guild_roles@[k as int], guild_roles@[j]));
                    }
                }
                return Err(AddError::AboveBot { role: found.id, highest: guild_roles[k].id });
            }
            assert(held(guild_roles@, my_roles@, k as int));
        },
        None => {
            return Err(AddError::AboveBot { role: found.id, highest: guild_id });
        },
    }
    let label = match label {
        Some(l) => l,
        None => found.name.clone(),
    };
    Ok(RoleData { role_id: id_text(found.id), label, description })
}

} // verus!
