//! The greeting that the desktop shell answers with.

use vstd::prelude::*;
use vstd::string::StringExecFns;

verus! {

/// Whether `s` holds the character `c`.
fn holds(s: &str, c: char) -> (found: bool)
    ensures
        found == s@.contains(c),
{
    broadcast use vstd::string::group_string_axioms;

    for d in it: s.chars()
        invariant
            it.seq() == s@,
            forall|j: int| 0 <= j < it.index() ==> s@[j] != c,
    {
        if d == c {
            return true;
        }
    }
    false
}

/// Greets `name`. A name with a space in it is refused.
pub fn hello(name: &str) -> (answer: Result<String, String>)
    ensures
        match answer {
            Ok(greeting) => !name@.contains(' ') && greeting@ == "Hello, "@ + name@,
            Err(reason) => name@.contains(' ') && reason@ == "Name should not contain spaces"@,
        },
{
    if holds(name, ' ') {
        Err("Name should not contain spaces".to_owned())
    } else {
        let mut greeting = String::from_str("Hello, ");
        greeting.append(name);
        Ok(greeting)
    }
}

} // verus!
