//! Synthesis of the hidden identifiers: the marker module and the inner name
//! of a callable sealed method.
use vstd::prelude::*;

verus! {

/// What heck's snake case conversion returns for the given characters.
pub uninterp spec fn snake_case_of(s: Seq<char>) -> Seq<char>;

/// The fixed prefix of every marker module name.
pub open spec fn seal_prefix() -> Seq<char> {
    seq!['_', '_', 's', 'e', 'a', 'l', '_']
}

/// An identifier with its raw marker `r#` removed, if it has one.
pub open spec fn unraw_of(s: Seq<char>) -> Seq<char> {
    if s.len() >= 2 && s[0] == 'r' && s[1] == '#' {
        s.subrange(2, s.len() as int)
    } else {
        s
    }
}

/// The name of the marker module of an interface named `s`.
pub open spec fn seal_name_of(s: Seq<char>) -> Seq<char> {
    seal_prefix() + snake_case_of(unraw_of(s))
}

/// The name under which a callable sealed method `s` is kept once its public
/// wrapper takes its place.
pub open spec fn seal_function_name_of(s: Seq<char>) -> Seq<char> {
    seq!['_'] + s
}

/// Relies on heck's `ToSnakeCase::to_snake_case` for `str`: its result depends
/// on the characters of its argument alone.
#[verifier::external_body]
fn to_snake_case(s: &str) -> (r: String)
    ensures
        r@ == snake_case_of(s@),
{
    heck::ToSnakeCase::to_snake_case(s)
}

/// Removes the raw identifier marker `r#` from the front of `s`.
pub fn unraw(s: &str) -> (r: String)
    ensures
        r@ == unraw_of(s@),
{
    let n = s.unicode_len();
    if n >= 2 && s.get_char(0) == 'r' && s.get_char(1) == '#' {
        s.substring_char(2, n).to_string()
    } else {
        s.to_string()
    }
}

/// The name of the marker module of the interface named `name`: the fixed
/// prefix `__seal_` followed by the snake case form of the name.
pub fn seal_name(name: &str) -> (r: String)
    ensures
        r@ == seal_name_of(name@),
{
    let bare = unraw(name);
    let snake = to_snake_case(bare.as_str());
    let mut r = String::from_str("__seal_");
    proof {
        reveal_strlit("__seal_");
    }
    r.append(snake.as_str());
    assert(r@ =~= seal_name_of(name@));
    r
}

/// The inner name of a callable sealed method: its own name behind a leading
/// underscore.
pub fn seal_function_name(name: &str) -> (r: String)
    ensures
        r@ == seal_function_name_of(name@),
{
    let mut r = String::from_str("_");
    proof {
        reveal_strlit("_");
    }
    r.append(name);
    assert(r@ =~= seal_function_name_of(name@));
    r
}

/// Marker module names are a function of the interface name, and interface
/// names whose snake case forms differ get distinct marker module names.
pub proof fn lemma_seal_name_injective(a: Seq<char>, b: Seq<char>)
    ensures
        a == b ==> seal_name_of(a) == seal_name_of(b),
        snake_case_of(unraw_of(a)) != snake_case_of(unraw_of(b)) ==> seal_name_of(a)
            != seal_name_of(b),
{
    let p = seal_prefix();
    if seal_name_of(a) == seal_name_of(b) {
        let sa = snake_case_of(unraw_of(a));
        let sb = snake_case_of(unraw_of(b));
        assert((p + sa).subrange(p.len() as int, (p + sa).len() as int) =~= sa);
        assert((p + sb).subrange(p.len() as int, (p + sb).len() as int) =~= sb);
    }
}

} // verus!
