//! The two greeting pages.

use vstd::prelude::*;
use vstd::string::StringExecFns;

verus! {

/// The name greeted where none is given.
pub open spec fn default_name() -> Seq<char> {
    "World"@
}

/// The page for `/hello`: greets the given name, or the world.
pub fn handler_hello(name: Option<&str>) -> (html: String)
    ensures
        html@ == "Hello <strong>"@ + match name {
            Some(name) => name@,
            None => default_name(),
        } + "!</strong>"@,
{
    let name = match name {
        Some(name) => name,
        None => "World",
    };
    let mut html = "Hello <strong>".to_owned();
    html.append(name);
    html.append("!</strong>");
    html
}

/// The page for `/halo/<name>`.
pub fn handler_halo(name: &str) -> (html: String)
    ensures
        html@ == "Halo <strong>"@ + name@ + "!</strong>"@,
{
    let mut html = "Halo <strong>".to_owned();
    html.append(name);
    html.append("!</strong>");
    html
}

} // verus!
