//! The pet search driven by the `q` query parameter.
use vstd::prelude::*;
use vstd::string::*;

verus! {

/// One search result.
#[derive(Debug, Clone)]
pub struct Pet {
    pub id: u32,
    pub name: String,
}

/// The character of a decimal digit below ten.
pub open spec fn digit_char(d: nat) -> char {
    seq!['0', '1', '2', '3', '4', '5', '6', '7', '8', '9'][d as int]
}

/// The decimal text of `n`: no sign, no leading zeros.
pub open spec fn decimal(n: nat) -> Seq<char>
    decreases n,
{
    if n < 10 {
        seq![digit_char(n)]
    } else {
        decimal(n / 10).push(digit_char(n % 10))
    }
}

/// Relies on `<u32 as ToString>::to_string`: the decimal text of the number.
#[verifier::external_body]
fn u32_text(n: u32) -> (r: String)
    ensures
        r@ == decimal(n as nat),
{
    n.to_string()
}

/// The search key read from the query parameter: its text, or empty where
/// there is none.
pub fn search_key(q: Option<String>) -> (r: String)
    ensures
        q matches Some(s) ==> r@ == s@,
        q is None ==> r@.len() == 0,
{
    match q {
        Some(s) => s,
        None => String::new(),
    }
}

/// Whether the results are shown: only for a query parameter that is
/// present and not empty.
pub fn has_search(q: &Option<String>) -> (r: bool)
    ensures
        r == (q matches Some(s) && s@.len() > 0),
{
    match q {
        Some(s) => !s.as_str().is_empty(),
        None => false,
    }
}

/// The name of the first result for `key`.
pub open spec fn first_name(key: Seq<char>) -> Seq<char> {
    "<"@ + key + "> 豆子"@
}

/// The name of the second result for `key`.
pub open spec fn second_name(key: Seq<char>) -> Seq<char> {
    "<"@ + key + " ok> 王立"@
}

/// The results for `key`: two pets, with ids 10 and 20, whose names embed
/// the key.
pub fn fetch_search(key: &str) -> (r: Vec<Pet>)
    ensures
        r@.len() == 2,
        r@[0].id == 10,
        r@[0].name@ == first_name(key@),
        r@[1].id == 20,
        r@[1].name@ == second_name(key@),
{
    let mut first = String::from_str("<");
    first.append(key);
    first.append("> 豆子");
    let mut second = String::from_str("<");
    second.append(key);
    second.append(" ok> 王立");
    vec![Pet { id: 10, name: first }, Pet { id: 20, name: second }]
}

/// The key that tells a result row from the others.
pub open spec fn spec_pet_key(id: u32, name: Seq<char>) -> Seq<char> {
    decimal(id as nat) + "_"@ + name
}

/// The row key of a result: its id in decimal, `_`, and its name.
pub fn pet_key(pet: &Pet) -> (r: String)
    ensures
        r@ == spec_pet_key(pet.id, pet.name@),
{
    let mut r = u32_text(pet.id);
    r.append("_");
    r.append(pet.name.as_str());
    r
}

} // verus!
