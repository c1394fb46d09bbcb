use vstd::prelude::*;
use vstd::string::*;

verus! {

/// What `str::trim` gives for a string.
pub uninterp spec fn trim_of(s: Seq<char>) -> Seq<char>;

/// What `str::to_lowercase` gives for a string.
pub uninterp spec fn lower_of(s: Seq<char>) -> Seq<char>;

/// Relies on `str::trim`: the string without leading and trailing white
/// space, which depends on its characters alone.
#[verifier::external_body]
fn trimmed(s: &str) -> (r: String)
    ensures
        r@ == trim_of(s@),
{
    s.trim().to_string()
}

/// Relies on `str::to_lowercase`: the lower-case form of the string, which
/// depends on its characters alone.
#[verifier::external_body]
fn lowercased(s: &str) -> (r: String)
    ensures
        r@ == lower_of(s@),
{
    s.to_lowercase()
}

pub open spec fn is_yes(w: Seq<char>) -> bool {
    w == "y"@ || w == "yes"@
}

/// A typed answer, trimmed and in lower case.
pub fn normalize(input: &str) -> (r: String)
    ensures
        r@ == lower_of(trim_of(input@)),
{
    let t = trimmed(input);
    lowercased(t.as_str())
}

/// Whether a normalized answer says yes.
pub fn is_yes_answer(answer: &String) -> (r: bool)
    ensures
        r == is_yes(answer@),
{
    let y = String::from_str("y");
    let yes = String::from_str("yes");
    *answer == y || *answer == yes
}

/// Whether a normalized answer to a question whose default is yes accepts:
/// an empty answer takes the default.
pub fn is_yes_or_empty_answer(answer: &String) -> (r: bool)
    ensures
        r == (answer@.len() == 0 || is_yes(answer@)),
{
    answer.as_str().is_empty() || is_yes_answer(answer)
}

/// Whether a typed answer to a question whose default is no confirms.
pub fn confirms(input: &str) -> (r: bool)
    ensures
        r == is_yes(lower_of(trim_of(input@))),
{
    let a = normalize(input);
    is_yes_answer(&a)
}

/// Whether a typed answer to a question whose default is yes accepts.
pub fn accepts(input: &str) -> (r: bool)
    ensures
        r == (lower_of(trim_of(input@)).len() == 0 || is_yes(lower_of(trim_of(input@)))),
{
    let a = normalize(input);
    is_yes_or_empty_answer(&a)
}

} // verus!
