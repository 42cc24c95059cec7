//! The name under which the binding of a type is generated.
//!
//! Each type gets a module of its own for its encoder and decoder. The module
//! is named after the type: the type's name in snake case, then a fixed
//! suffix. Two types share a module name only where their names have the same
//! snake-case form.

use heck::ToSnakeCase;
use vstd::prelude::*;
use vstd::string::StringExecFns;

verus! {

/// The snake-case form of a name, as `heck` computes it: words are cut at
/// characters that are neither letters nor digits and at changes of case,
/// lower-cased, and joined by single underscores.
pub uninterp spec fn snake_case(name: Seq<char>) -> Seq<char>;

/// `heck::ToSnakeCase::to_snake_case` on a `str`.
///
/// Not proved: the contract takes `heck`'s word for what the snake-case form
/// is. It claims only that the string returned depends on `name` alone, which
/// holds because the conversion reads nothing else, and it always returns:
/// it writes into a fresh `String`, which cannot fail.
#[verifier::external_body]
fn to_snake_case(name: &str) -> (snake: String)
    ensures
        snake@ == snake_case(name@),
{
    name.to_snake_case()
}

/// What follows the type's name in the name of its module.
pub open spec fn module_suffix() -> Seq<char> {
    "_diesel_jsonb"@
}

/// The name of the module for a type named `type_ident`.
pub open spec fn module_name_of(type_ident: Seq<char>) -> Seq<char> {
    snake_case(type_ident) + module_suffix()
}

/// Two types get the same module name exactly when their names have the same
/// snake-case form.
pub proof fn lemma_same_module_same_snake_case(first: Seq<char>, second: Seq<char>)
    ensures
        module_name_of(first) == module_name_of(second) <==> snake_case(first) == snake_case(
            second,
        ),
{
    let a = snake_case(first);
    let b = snake_case(second);
    if a + module_suffix() == b + module_suffix() {
        assert((a + module_suffix()).len() == (b + module_suffix()).len());
        assert((a + module_suffix()).subrange(0, a.len() as int) =~= a);
        assert((b + module_suffix()).subrange(0, b.len() as int) =~= b);
    }
}

/// The module name for a type whose name in snake case is `snake`.
pub fn module_name_from(snake: &str) -> (name: String)
    ensures
        name@ == snake@ + module_suffix(),
{
    String::from_str(snake).concat("_diesel_jsonb")
}

/// The name of the module that holds the binding of the type named `type_ident`:
/// the type's name in snake case, then `_diesel_jsonb`.
///
/// A type without a name has no binding: the empty name gives `None`. Whether
/// the name returned is an identifier is for the generator to check.
pub fn module_name(type_ident: &str) -> (name: Option<String>)
    ensures
        name is Some <==> type_ident@.len() > 0,
        name matches Some(n) ==> n@ == module_name_of(type_ident@),
{
    if type_ident.is_empty() {
        return None;
    }
    let snake = to_snake_case(type_ident);
    Some(module_name_from(snake.as_str()))
}

} // verus!
