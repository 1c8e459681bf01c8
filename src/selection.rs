use crate::ids::{holds_id, mention, mention_text, parse_id, parse_snowflake};
use crate::RoleData;
use std::num::ParseIntError;
use vstd::prelude::*;

verus! {

/// A role id that did not parse: its text, and the parser's error.
#[derive(Debug)]
pub struct InvalidId {
    pub text: String,
    pub error: ParseIntError,
}

pub open spec fn texts(v: Seq<String>) -> Seq<Seq<char>> {
    v.map_values(|s: String| s@)
}

pub open spec fn role_id_texts(v: Seq<RoleData>) -> Seq<Seq<char>> {
    v.map_values(|r: RoleData| r.role_id@)
}

/// Every text of `ss` is an id.
pub open spec fn all_parse(ss: Seq<Seq<char>>) -> bool {
    forall|i: int| 0 <= i < ss.len() ==> (#[trigger] parse_id(ss[i])) is Some
}

/// The ids that the texts of `ss` hold, where all of them are ids.
pub open spec fn parsed_ids(ss: Seq<Seq<char>>) -> Seq<u64> {
    Seq::new(ss.len(), |i: int| parse_id(ss[i])->Some_0)
}

/// `t` is the first text of `ss` that is not an id.
pub open spec fn first_invalid(ss: Seq<Seq<char>>, t: Seq<char>) -> bool {
    exists|i: int|
        0 <= i < ss.len() && #[trigger] ss[i] == t && parse_id(t) is None && forall|j: int|
            0 <= j < i ==> (#[trigger] parse_id(ss[j])) is Some
}

/// `kept` holds, once each, the roles of `current` that are not among `known`.
pub open spec fn kept_roles(current: Seq<u64>, known: Seq<u64>, kept: Seq<u64>) -> bool {
    &&& kept.no_duplicates()
    &&& forall|x: u64| #[trigger]
        kept.contains(x) <==> current.contains(x) && !known.contains(x)
}

/// The mentions of the roles given by their ids' texts, joined by commas.
pub open spec fn mention_list(ss: Seq<Seq<char>>) -> Seq<char>
    decreases ss.len(),
{
    if ss.len() == 0 {
        Seq::empty()
    } else if ss.len() == 1 {
        mention(ss[0])
    } else {
        mention_list(ss.drop_last()) + ", "@ + mention(ss.last())
    }
}

/// The text of the reply to a choice of roles, given by their ids' texts.
pub open spec fn selection_text(selected: Seq<Seq<char>>) -> Seq<char> {
    if selected.len() == 0 {
        "Cleared your roles."@
    } else {
        "Set your roles to "@ + mention_list(selected) + "."@
    }
}

/// A role is among the final roles exactly where the member held it and it is
/// no self-role, or where it was chosen.
pub proof fn lemma_final_roles_members(
    current: Seq<u64>,
    known: Seq<u64>,
    chosen: Seq<u64>,
    v: Seq<u64>,
    n: int,
)
    requires
        0 <= n <= v.len(),
        kept_roles(current, known, v.take(n)),
        v.skip(n) == chosen,
    ensures
        forall|x: u64| #[trigger]
            v.contains(x) <==> (current.contains(x) && !known.contains(x)) || chosen.contains(x),
{
    broadcast use vstd::seq_lib::lemma_seq_concat_contains_all_elements;

    assert(v =~= v.take(n) + v.skip(n));
}

/// Parses each text of `v`, in order, stopping at the first that is no id.
fn parse_all(v: &Vec<String>) -> (r: Result<Vec<u64>, InvalidId>)
    ensures
        r is Ok <==> all_parse(texts(v@)),
        r matches Ok(ids) ==> ids@ == parsed_ids(texts(v@)),
        r matches Err(e) ==> first_invalid(texts(v@), e.text@),
{
    let mut ids: Vec<u64> = Vec::new();
    let mut i: usize = 0;
    while i < v.len()
        invariant
            i <= v@.len(),
            ids@ == parsed_ids(texts(v@).take(i as int)),
            forall|j: int| 0 <= j < i ==> (#[trigger] parse_id(texts(v@)[j])) is Some,
        decreases v@.len() - i,
    {
        match parse_snowflake(v[i].as_str()) {
            Ok(id) => {
                ids.push(id);
                assert(ids@ =~= parsed_ids(texts(v@).take(i + 1)));
            },
            Err(error) => {
                assert(texts(v@)[i as int] == v@[i as int]@);
                return Err(InvalidId { text: v[i].clone(), error });
            },
        }
        i = i + 1;
    }
    assert(texts(v@).take(i as int) =~= texts(v@));
    Ok(ids)
}

/// The ids of the self-roles, in order, stopping at the first that is no id.
fn parse_role_ids(v: &Vec<RoleData>) -> (r: Result<Vec<u64>, InvalidId>)
    ensures
        r is Ok <==> all_parse(role_id_texts(v@)),
        r matches Ok(ids) ==> ids@ == parsed_ids(role_id_texts(v@)),
        r matches Err(e) ==> first_invalid(role_id_texts(v@), e.text@),
{
    let mut ids: Vec<u64> = Vec::new();
    let mut i: usize = 0;
    while i < v.len()
        invariant
            i <= v@.len(),
            ids@ == parsed_ids(role_id_texts(v@).take(i as int)),
            forall|j: int| 0 <= j < i ==> (#[trigger] parse_id(role_id_texts(v@)[j])) is Some,
        decreases v@.len() - i,
    {
        match parse_snowflake(v[i].role_id.as_str()) {
            Ok(id) => {
                ids.push(id);
                assert(ids@ =~= parsed_ids(role_id_texts(v@).take(i + 1)));
            },
            Err(error) => {
                assert(role_id_texts(v@)[i as int] == v@[i as int].role_id@);
                return Err(InvalidId { text: v[i].role_id.clone(), error });
            },
        }
        i = i + 1;
    }
    assert(role_id_texts(v@).take(i as int) =~= role_id_texts(v@));
    Ok(ids)
}

/// The roles that a member holds after choosing `selected` in the menu: the
/// roles of `current` that are not self-roles, once each, followed by the
/// chosen ones in their order. Fails on the first self-role id, and then on
/// the first chosen id, that does not parse.
pub fn final_roles(current: &Vec<u64>, self_roles: &Vec<RoleData>, selected: &Vec<String>) -> (r:
    Result<Vec<u64>, InvalidId>)
    ensures
        r is Ok <==> all_parse(role_id_texts(self_roles@)) && all_parse(texts(selected@)),
        r matches Err(e) ==> if all_parse(role_id_texts(self_roles@)) {
            first_invalid(texts(selected@), e.text@)
        } else {
            first_invalid(role_id_texts(self_roles@), e.text@)
        },
        r matches Ok(v) ==> {
            let n = v@.len() - selected@.len();
            &&& n >= 0
            &&& kept_roles(current@, parsed_ids(role_id_texts(self_roles@)), v@.take(n))
            &&& v@.skip(n) == parsed_ids(texts(selected@))
            &&& forall|x: u64| #[trigger]
                v@.contains(x) <==> (current@.contains(x) && !parsed_ids(
                    role_id_texts(self_roles@),
                ).contains(x)) || parsed_ids(texts(selected@)).contains(x)
        },
{
    let known = match parse_role_ids(self_roles) {
        Ok(ids) => ids,
        Err(e) => {
            return Err(e);
        },
    };
    let mut out: Vec<u64> = Vec::new();
    let mut i: usize = 0;
    while i < current.len()
        invariant
            i <= current@.len(),
            kept_roles(current@.take(i as int), known@, out@),
        decreases current@.len() - i,
    {
        let c = current[i];
        proof {
            broadcast use vstd::seq_lib::lemma_seq_contains_after_push;

            assert(current@.take(i + 1) =~= current@.take(i as int).push(c));
        }
        if !holds_id(&known, c) && !holds_id(&out, c) {
            out.push(c);
            proof {
                broadcast use vstd::seq_lib::lemma_seq_contains_after_push;

                assert(out@ =~= out@.drop_last().push(c));
            }
        }
        i = i + 1;
    }
    assert(current@.take(i as int) =~= current@);
    let n = out.len();
    let chosen = match parse_all(selected) {
        Ok(ids) => ids,
        Err(e) => {
            return Err(e);
        },
    };
    let ghost head = out@;
    assert(out@.take(n as int) =~= head);
    let mut k: usize = 0;
    while k < chosen.len()
        invariant
            k <= chosen@.len(),
            out@.len() == n + k,
            out@.take(n as int) == head,
            kept_roles(current@, known@, head),
            out@.skip(n as int) == chosen@.take(k as int),
        decreases chosen@.len() - k,
    {
        out.push(chosen[k]);
        assert(out@.take(n as int) =~= out@.drop_last().take(n as int));
        assert(out@.skip(n as int) =~= chosen@.take(k + 1));
        k = k + 1;
    }
    assert(chosen@.take(k as int) =~= chosen@);
    proof {
        lemma_final_roles_members(current@, known@, chosen@, out@, n as int);
    }
    Ok(out)
}


/// The text of the reply to a choice of roles in the menu, given by the
/// texts of their ids.
pub fn selection_message(selected: &Vec<String>) -> (r: String)
    ensures
        r@ == selection_text(texts(selected@)),
{
    if selected.len() == 0 {
        return String::from_str("Cleared your roles.");
    }
    let mut list = String::new();
    let mut i: usize = 0;
    while i < selected.len()
        invariant
            0 < selected@.len(),
            i <= selected@.len(),
            list@ == mention_list(texts(selected@).take(i as int)),
        decreases selected@.len() - i,
    {
        let ghost prev = texts(selected@).take(i as int);
        let ghost next = texts(selected@).take(i + 1);
        assert(next.drop_last() =~= prev);
        assert(next.last() == selected@[i as int]@);
        if i > 0 {
            list.append(", ");
        } else {
            assert(list@ =~= Seq::<char>::empty());
        }
        list.append(mention_text(selected[i].as_str()).as_str());
        i = i + 1;
    }
    assert(texts(selected@).take(i as int) =~= texts(selected@));
    let mut r = String::from_str("Set your roles to ");
    r.append(list.as_str());
    r.append(".");
    r
}

} // verus!
