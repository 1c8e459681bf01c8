use std::num::ParseIntError;
use twilight_model::id::marker::RoleMarker;
use twilight_model::id::Id;
use vstd::prelude::*;

verus! {

/// std's `ParseIntError`, the error of a failed id parse, carried through
/// as it is; nothing is read from it.
#[verifier::external_type_specification]
#[verifier::external_body]
pub struct ExParseIntError(ParseIntError);

/// The character of a decimal digit `d < 10`.
pub open spec fn digit_char(d: nat) -> char {
    if d == 0 { '0' }
    else if d == 1 { '1' }
    else if d == 2 { '2' }
    else if d == 3 { '3' }
    else if d == 4 { '4' }
    else if d == 5 { '5' }
    else if d == 6 { '6' }
    else if d == 7 { '7' }
    else if d == 8 { '8' }
    else { '9' }
}

/// The value of a decimal digit character.
pub open spec fn digit_value(c: char) -> nat {
    (c as u32 - '0' as u32) as nat
}

pub open spec fn is_digit(c: char) -> bool {
    '0' <= c && c <= '9'
}

pub open spec fn all_digits(s: Seq<char>) -> bool {
    forall|i: int| 0 <= i < s.len() ==> is_digit(#[trigger] s[i])
}

/// The number that a string of decimal digits spells.
pub open spec fn digits_value(s: Seq<char>) -> nat
    decreases s.len(),
{
    if s.len() == 0 {
        0
    } else {
        digits_value(s.drop_last()) * 10 + digit_value(s.last())
    }
}

/// The shortest decimal spelling of `n`.
pub open spec fn decimal(n: nat) -> Seq<char>
    decreases n,
{
    if n < 10 {
        seq![digit_char(n)]
    } else {
        decimal(n / 10).push(digit_char(n % 10))
    }
}

/// The digits of an unsigned number written with an optional leading `+`.
pub open spec fn unsigned_digits(s: Seq<char>) -> Seq<char> {
    if s.len() > 0 && s[0] == '+' {
        s.drop_first()
    } else {
        s
    }
}

/// The snowflake id that a string holds: a non-zero `u64` in decimal digits,
/// optionally preceded by `+`, with nothing else around it.
pub open spec fn parse_id(s: Seq<char>) -> Option<u64> {
    let d = unsigned_digits(s);
    if d.len() > 0 && all_digits(d) && 0 < digits_value(d) <= u64::MAX {
        Some(digits_value(d) as u64)
    } else {
        None
    }
}

/// The text of a role mention: `<@&` and the id's text and `>`.
pub open spec fn mention(id: Seq<char>) -> Seq<char> {
    "<@&"@ + id + ">"@
}

proof fn lemma_digit_char(d: nat)
    requires
        d < 10,
    ensures
        is_digit(digit_char(d)),
        digit_value(digit_char(d)) == d,
{
}

proof fn lemma_decimal_digits(n: nat)
    ensures
        decimal(n).len() > 0,
        all_digits(decimal(n)),
        digits_value(decimal(n)) == n,
    decreases n,
{
    if n < 10 {
        lemma_digit_char(n);
        assert(decimal(n).drop_last() =~= Seq::<char>::empty());
        assert(digits_value(decimal(n)) == digits_value(Seq::<char>::empty()) * 10 + digit_value(
            digit_char(n),
        ));
    } else {
        lemma_decimal_digits(n / 10);
        lemma_digit_char(n % 10);
        let d = decimal(n);
        assert(d.drop_last() =~= decimal(n / 10));
        assert(d.last() == digit_char(n % 10));
        assert(digits_value(d) == (n / 10) * 10 + n % 10);
        assert forall|i: int| 0 <= i < d.len() implies is_digit(#[trigger] d[i]) by {
            if i < d.len() - 1 {
                assert(d[i] == decimal(n / 10)[i]);
            }
        }
    }
}

/// The decimal text of a non-zero id parses back to that id.
pub proof fn lemma_parse_decimal(n: u64)
    requires
        n > 0,
    ensures
        parse_id(decimal(n as nat)) == Some(n),
{
    lemma_decimal_digits(n as nat);
    assert(is_digit(decimal(n as nat)[0]));
}

/// Relies on twilight_model's `FromStr` for `Id`, which is
/// `NonZeroU64::from_str`: an optional `+` and then only ASCII decimal
/// digits, whose value must be non-zero and fit in a `u64`.
#[verifier::external_body]
fn parse_role_id(s: &str) -> (r: Result<u64, ParseIntError>)
    ensures
        r is Ok <==> parse_id(s@) is Some,
        r matches Ok(v) ==> parse_id(s@) == Some(v),
{
    s.parse::<Id<RoleMarker>>().map(|id| id.get())
}

/// Relies on the `Display` of `u64` (through `ToString`): its decimal
/// digits, without sign or leading zeros.
#[verifier::external_body]
fn u64_text(n: u64) -> (r: String)
    ensures
        r@ == decimal(n as nat),
{
    n.to_string()
}

/// Parses the text of a snowflake id.
pub fn parse_snowflake(s: &str) -> (r: Result<u64, ParseIntError>)
    ensures
        r is Ok <==> parse_id(s@) is Some,
        r matches Ok(v) ==> parse_id(s@) == Some(v),
{
    parse_role_id(s)
}

/// The decimal text of an id.
pub fn id_text(id: u64) -> (r: String)
    ensures
        r@ == decimal(id as nat),
{
    u64_text(id)
}

/// The mention of a role given by the text of its id.
pub fn mention_text(id: &str) -> (r: String)
    ensures
        r@ == mention(id@),
{
    let mut r = String::from_str("<@&");
    r.append(id);
    r.append(">");
    r
}

/// The mention of a role given by its id.
pub fn mention_id(id: u64) -> (r: String)
    ensures
        r@ == mention(decimal(id as nat)),
{
    let text = id_text(id);
    mention_text(text.as_str())
}

/// Whether `ids` holds `id`.
pub fn holds_id(ids: &Vec<u64>, id: u64) -> (r: bool)
    ensures
        r == ids@.contains(id),
{
    let mut i: usize = 0;
    while i < ids.len()
        invariant
            i <= ids@.len(),
            forall|j: int| 0 <= j < i ==> ids@[j] != id,
        decreases ids@.len() - i,
    {
        if ids[i] == id {
            return true;
        }
        i = i + 1;
    }
    false
}

} // verus!
