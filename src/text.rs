use vstd::prelude::*;
use vstd::string::*;

verus! {

/// Whether `s` holds exactly the text `lit`.
pub fn equals_str(s: &String, lit: &str) -> (r: bool)
    ensures
        r == (s@ == lit@),
{
    *s == String::from_str(lit)
}

} // verus!
