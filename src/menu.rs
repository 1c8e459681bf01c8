use crate::hierarchy::{is_below, role_below, GuildRole};
use crate::ids::{decimal, holds_id, id_text};
use crate::RoleData;
use vstd::prelude::*;

verus! {

/// One entry of the role menu.
#[derive(Debug)]
pub struct MenuOption {
    pub label: String,
    pub value: String,
    pub description: Option<String>,
    /// Whether the member holds the role already.
    pub default: bool,
}

/// The menu from which a member picks self-roles.
#[derive(Debug)]
pub struct RoleMenu {
    pub custom_id: String,
    pub placeholder: String,
    pub min_values: u8,
    pub max_values: u8,
    pub options: Vec<MenuOption>,
}

/// `i` is the first guild role whose id has the text `t`.
pub open spec fn first_with_text(roles: Seq<GuildRole>, t: Seq<char>, i: int) -> bool {
    &&& 0 <= i < roles.len()
    &&& decimal(roles[i].id as nat) == t
    &&& forall|j: int| 0 <= j < i ==> decimal(roles[j].id as nat) != t
}

/// Some guild role has an id with the text `t`.
pub open spec fn known_text(roles: Seq<GuildRole>, t: Seq<char>) -> bool {
    exists|i: int| 0 <= i < roles.len() && decimal(#[trigger] roles[i].id as nat) == t
}

/// The guild role that the self-role with id text `t` stands for: the first
/// one whose id has that text.
pub open spec fn role_of(roles: Seq<GuildRole>, t: Seq<char>) -> GuildRole {
    roles[choose|i: int| first_with_text(roles, t, i)]
}

/// What the menu needs: each self-role is a role of the guild, and their
/// number fits the menu's bound.
pub open spec fn menu_inputs_ok(self_roles: Seq<RoleData>, roles: Seq<GuildRole>) -> bool {
    &&& self_roles.len() <= 255
    &&& forall|k: int| 0 <= k < self_roles.len() ==> known_text(roles, #[trigger] self_roles[k].role_id@)
}

/// `p` lists each index below `n` once.
pub open spec fn is_order(p: Seq<usize>, n: nat) -> bool {
    &&& p.len() == n
    &&& p.no_duplicates()
    &&& forall|k: int| 0 <= k < p.len() ==> #[trigger] p[k] < n
}

/// The option of the menu for a self-role.
pub open spec fn option_for(o: MenuOption, s: RoleData, roles: Seq<GuildRole>, member: Seq<u64>) -> bool {
    &&& o.label@ == s.label@
    &&& o.value@ == s.role_id@
    &&& o.description is Some == s.description is Some
    &&& (o.description matches Some(d) ==> d@ == s.description->Some_0@)
    &&& o.default == member.contains(role_of(roles, s.role_id@).id)
}

proof fn lemma_first_with_text_unique(roles: Seq<GuildRole>, t: Seq<char>, i: int, j: int)
    requires
        first_with_text(roles, t, i),
        first_with_text(roles, t, j),
    ensures
        i == j,
{
}

proof fn lemma_role_of(roles: Seq<GuildRole>, t: Seq<char>, i: int)
    requires
        first_with_text(roles, t, i),
    ensures
        role_of(roles, t) == roles[i],
{
    let c = choose|c: int| first_with_text(roles, t, c);
    lemma_first_with_text_unique(roles, t, i, c);
}

/// The texts of the guild roles' ids.
fn role_texts(roles: &Vec<GuildRole>) -> (r: Vec<String>)
    ensures
        r@.len() == roles@.len(),
        forall|j: int| 0 <= j < r@.len() ==> #[trigger] r@[j]@ == decimal(roles@[j].id as nat),
{
    let mut r: Vec<String> = Vec::new();
    let mut i: usize = 0;
    while i < roles.len()
        invariant
            i <= roles@.len(),
            r@.len() == i,
            forall|j: int| 0 <= j < i ==> #[trigger] r@[j]@ == decimal(roles@[j].id as nat),
        decreases roles@.len() - i,
    {
        r.push(id_text(roles[i].id));
        i = i + 1;
    }
    r
}

/// For each self-role, the index of the guild role it stands for.
fn role_indices(self_roles: &Vec<RoleData>, roles: &Vec<GuildRole>) -> (r: Vec<usize>)
    requires
        menu_inputs_ok(self_roles@, roles@),
    ensures
        r@.len() == self_roles@.len(),
        forall|k: int|
            0 <= k < r@.len() ==> first_with_text(roles@, self_roles@[k].role_id@, #[trigger] r@[k] as int),
{
    let texts = role_texts(roles);
    let mut r: Vec<usize> = Vec::new();
    let mut k: usize = 0;
    while k < self_roles.len()
        invariant
            k <= self_roles@.len(),
            r@.len() == k,
            menu_inputs_ok(self_roles@, roles@),
            texts@.len() == roles@.len(),
            forall|j: int| 0 <= j < texts@.len() ==> #[trigger] texts@[j]@ == decimal(roles@[j].id as nat),
            forall|m: int|
                0 <= m < k ==> first_with_text(roles@, self_roles@[m].role_id@, #[trigger] r@[m] as int),
        decreases self_roles@.len() - k,
    {
        let t = &self_roles[k].role_id;
        assert(known_text(roles@, t@));
        let mut j: usize = 0;
        while j < texts.len() && !(texts[j] == *t)
            invariant
                j <= texts@.len(),
                texts@.len() == roles@.len(),
                known_text(roles@, t@),
                forall|i: int| 0 <= i < texts@.len() ==> #[trigger] texts@[i]@ == decimal(roles@[i].id as nat),
                forall|i: int| 0 <= i < j ==> decimal(roles@[i].id as nat) != t@,
            decreases texts@.len() - j,
        {
            j = j + 1;
        }
        proof {
            if j == texts@.len() {
                let w = choose|i: int|
                    0 <= i < roles@.len() && decimal(#[trigger] roles@[i].id as nat) == t@;
                assert(decimal(roles@[w].id as nat) != t@);
            }
        }
        r.push(j);
        k = k + 1;
    }
    r
}

/// The order of the self-roles in the menu: from the highest guild role to
/// the lowest, where `ranks[k]` is the guild role of self-role `k`.
fn order_by_rank(ranks: &Vec<usize>, roles: &Vec<GuildRole>) -> (p: Vec<usize>)
    requires
        forall|k: int| 0 <= k < ranks@.len() ==> #[trigger] ranks@[k] < roles@.len(),
    ensures
        is_order(p@, ranks@.len() as nat),
        forall|a: int, b: int|
            0 <= a < b < p@.len() ==> !role_below(
                #[trigger] roles@[ranks@[p@[a] as int] as int],
                #[trigger] roles@[ranks@[p@[b] as int] as int],
            ),
{
    let mut p: Vec<usize> = Vec::new();
    let mut i: usize = 0;
    while i < ranks.len()
        invariant
            i <= ranks@.len(),
            forall|k: int| 0 <= k < ranks@.len() ==> #[trigger] ranks@[k] < roles@.len(),
            is_order(p@, i as nat),
            forall|a: int, b: int|
                0 <= a < b < p@.len() ==> !role_below(
                    #[trigger] roles@[ranks@[p@[a] as int] as int],
                    #[trigger] roles@[ranks@[p@[b] as int] as int],
                ),
        decreases ranks@.len() - i,
    {
        let new_role = &roles[ranks[i]];
        let mut pos: usize = 0;
        while pos < p.len() && !is_below(&roles[ranks[p[pos]]], new_role)
            invariant
                pos <= p@.len(),
                i < ranks@.len(),
                *new_role == roles@[ranks@[i as int] as int],
                forall|k: int| 0 <= k < ranks@.len() ==> #[trigger] ranks@[k] < roles@.len(),
                is_order(p@, i as nat),
                forall|a: int|
                    0 <= a < pos ==> !role_below(
                        #[trigger] roles@[ranks@[p@[a] as int] as int],
                        *new_role,
                    ),
            decreases p@.len() - pos,
        {
            pos = pos + 1;
        }
        let ghost before = p@;
        p.insert(pos, i);
        proof {
            assert(p@ == before.insert(pos as int, i));
            assert forall|k: int| 0 <= k < p@.len() implies #[trigger] p@[k] < i + 1 by {
                if k < pos {
                    assert(p@[k] == before[k]);
                } else if k > pos {
                    assert(p@[k] == before[k - 1]);
                }
            }
            assert forall|a: int, b: int| 0 <= a < b < p@.len() implies p@[a] != p@[b] by {
                if a != pos && b != pos {
                    let a0 = if a < pos { a } else { a - 1 };
                    let b0 = if b < pos { b } else { b - 1 };
                    assert(p@[a] == before[a0]);
                    assert(p@[b] == before[b0]);
                } else if a == pos {
                    assert(p@[b] == before[b - 1]);
                    assert(before[b - 1] < i);
                } else {
                    let a0 = if a < pos { a } else { a - 1 };
                    assert(p@[a] == before[a0]);
                    assert(before[a0] < i);
                }
            }
            assert forall|a: int, b: int| 0 <= a < b < p@.len() implies !role_below(
                #[trigger] roles@[ranks@[p@[a] as int] as int],
                #[trigger] roles@[ranks@[p@[b] as int] as int],
            ) by {
                let ra = roles@[ranks@[p@[a] as int] as int];
                let rb = roles@[ranks@[p@[b] as int] as int];
                if a != pos && b != pos {
                    let a0 = if a < pos { a } else { a - 1 };
                    let b0 = if b < pos { b } else { b - 1 };
                    assert(p@[a] == before[a0]);
                    assert(p@[b] == before[b0]);
                } else if a == pos {
                    assert(p@[b] == before[b - 1]);
                    let rp = roles@[ranks@[before[pos as int] as int] as int];
                    if b - 1 > pos {
                        assert(!role_below(rp, rb));
                    }
                    assert(role_below(rp, ra));
                } else {
                    assert(p@[a] == before[a]);
                    assert(a < pos);
                }
            }
        }
        i = i + 1;
    }
    p
}


/// The menu lists the self-roles in the order `p`: from the highest guild
/// role to the lowest.
pub open spec fn menu_sorted(self_roles: Seq<RoleData>, roles: Seq<GuildRole>, p: Seq<usize>) -> bool {
    forall|a: int, b: int|
        0 <= a < b < p.len() ==> !role_below(
            role_of(roles, self_roles[#[trigger] p[a] as int].role_id@),
            role_of(roles, self_roles[#[trigger] p[b] as int].role_id@),
        )
}

fn copy_text(o: &Option<String>) -> (r: Option<String>)
    ensures
        r is Some == o is Some,
        r matches Some(d) ==> d@ == o->Some_0@,
{
    match o {
        Some(d) => Some(d.clone()),
        None => None,
    }
}

/// Whether the self-roles can be shown in a menu: each is a role of the
/// guild, and there are at most 255 of them.
pub fn menu_inputs_valid(self_roles: &Vec<RoleData>, roles: &Vec<GuildRole>) -> (r: bool)
    ensures
        r == menu_inputs_ok(self_roles@, roles@),
{
    if self_roles.len() > 255 {
        return false;
    }
    let texts = role_texts(roles);
    let mut k: usize = 0;
    while k < self_roles.len()
        invariant
            k <= self_roles@.len() <= 255,
            texts@.len() == roles@.len(),
            forall|j: int| 0 <= j < texts@.len() ==> #[trigger] texts@[j]@ == decimal(roles@[j].id as nat),
            forall|m: int| 0 <= m < k ==> known_text(roles@, #[trigger] self_roles@[m].role_id@),
        decreases self_roles@.len() - k,
    {
        let t = &self_roles[k].role_id;
        let mut j: usize = 0;
        while j < texts.len() && !(texts[j] == *t)
            invariant
                j <= texts@.len(),
                texts@.len() == roles@.len(),
                forall|i: int| 0 <= i < texts@.len() ==> #[trigger] texts@[i]@ == decimal(roles@[i].id as nat),
                forall|i: int| 0 <= i < j ==> decimal(roles@[i].id as nat) != t@,
            decreases texts@.len() - j,
        {
            j = j + 1;
        }
        if j == texts.len() {
            assert(!known_text(roles@, self_roles@[k as int].role_id@));
            return false;
        }
        assert(decimal(roles@[j as int].id as nat) == t@);
        k = k + 1;
    }
    true
}

/// The menu of the guild's self-roles, for a member who holds the role ids
/// `member_roles`: one option per self-role, from the highest guild role to
/// the lowest, marked where the member holds the role already; any number of
/// them may be picked.
pub fn role_menu(self_roles: &Vec<RoleData>, roles: &Vec<GuildRole>, member_roles: &Vec<u64>) -> (r:
    RoleMenu)
    requires
        menu_inputs_ok(self_roles@, roles@),
    ensures
        r.custom_id@ == "roleMenu"@,
        r.placeholder@ == "Select your roles"@,
        r.min_values == 0,
        r.max_values == self_roles@.len(),
        r.options@.len() == self_roles@.len(),
        exists|p: Seq<usize>|
            {
                &&& is_order(p, self_roles@.len() as nat)
                &&& menu_sorted(self_roles@, roles@, p)
                &&& forall|k: int|
                    0 <= k < p.len() ==> option_for(
                        #[trigger] r.options@[k],
                        self_roles@[p[k] as int],
                        roles@,
                        member_roles@,
                    )
            },
{
    let ranks = role_indices(self_roles, roles);
    let p = order_by_rank(&ranks, roles);
    proof {
        assert forall|k: int| 0 <= k < self_roles@.len() implies role_of(
            roles@,
            #[trigger] self_roles@[k].role_id@,
        ) == roles@[ranks@[k] as int] by {
            lemma_role_of(roles@, self_roles@[k].role_id@, ranks@[k] as int);
        }
        assert forall|a: int, b: int| 0 <= a < b < p@.len() implies !role_below(
            role_of(roles@, self_roles@[#[trigger] p@[a] as int].role_id@),
            role_of(roles@, self_roles@[#[trigger] p@[b] as int].role_id@),
        ) by {
            assert(!role_below(
                roles@[ranks@[p@[a] as int] as int],
                roles@[ranks@[p@[b] as int] as int],
            ));
        }
    }
    let mut options: Vec<MenuOption> = Vec::new();
    let mut k: usize = 0;
    while k < p.len()
        invariant
            k <= p@.len(),
            options@.len() == k,
            is_order(p@, self_roles@.len() as nat),
            ranks@.len() == self_roles@.len(),
            forall|m: int|
                0 <= m < ranks@.len() ==> first_with_text(roles@, self_roles@[m].role_id@, #[trigger] ranks@[m] as int),
            forall|m: int|
                0 <= m < self_roles@.len() ==> role_of(roles@, #[trigger] self_roles@[m].role_id@)
                    == roles@[ranks@[m] as int],
            forall|m: int|
                0 <= m < k ==> option_for(
                    #[trigger] options@[m],
                    self_roles@[p@[m] as int],
                    roles@,
                    member_roles@,
                ),
        decreases p@.len() - k,
    {
        let s = &self_roles[p[k]];
        let id = roles[ranks[p[k]]].id;
        options.push(
            MenuOption {
                label: s.label.clone(),
                value: s.role_id.clone(),
                description: copy_text(&s.description),
                default: holds_id(member_roles, id),
            },
        );
        k = k + 1;
    }
    RoleMenu {
        custom_id: String::from_str("roleMenu"),
        placeholder: String::from_str("Select your roles"),
        min_values: 0,
        max_values: self_roles.len() as u8,
        options,
    }
}

/// The text above the role menu.
pub fn menu_prompt() -> (r: String)
    ensures
        r@ == "Select all the roles you want, and click out of the menu to confirm."@,
{
    String::from_str("Select all the roles you want, and click out of the menu to confirm.")
}

pub open spec fn no_roles_text() -> Seq<char> {
    "Sorry, there are no roles to pick from. Contact server administrator to check if this is intentional."@
}

/// Refuses to show a menu where the guild has no self-roles.
pub fn check_has_roles(self_roles: &Vec<RoleData>) -> (r: Result<(), String>)
    ensures
        r is Ok <==> self_roles@.len() > 0,
        r matches Err(m) ==> m@ == no_roles_text(),
{
    if self_roles.len() == 0 {
        Err(
            String::from_str(
                "Sorry, there are no roles to pick from. Contact server administrator to check if this is intentional.",
            ),
        )
    } else {
        Ok(())
    }
}

} // verus!
