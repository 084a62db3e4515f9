use vstd::prelude::*;

verus! {

/// The value of a setting: the one found, or `default` where none was.
pub fn value_or_default(found: Option<String>, default: &str) -> (r: String)
    ensures
        r@ == match found {
            Some(s) => s@,
            None => default@,
        },
{
    match found {
        Some(s) => s,
        None => default.to_owned(),
    }
}

} // verus!
