//! Text helpers shared by the classifier and the collectors: character case,
//! string-slice equality, and membership of a name in a list of names.

use vstd::prelude::*;
use vstd::string::StrSliceExecFns;

verus! {

/// Whether a character has the Unicode uppercase property, as
/// `char::is_uppercase` decides it.
pub uninterp spec fn uppercase_char(c: char) -> bool;

/// Relies on `char::is_uppercase`: whether the character has the Unicode
/// uppercase property; the result depends on the character alone.
pub assume_specification[ char::is_uppercase ](c: char) -> (r: bool)
    ensures
        r == uppercase_char(c),
;

/// Relies on `str`'s `==` (`PartialEq::eq`): two string slices compare equal
/// exactly when their character sequences are equal.
#[verifier::external_body]
pub(crate) fn str_eq(a: &str, b: &str) -> (r: bool)
    ensures
        r == (a@ == b@),
{
    a == b
}

/// The PascalCase gate: the name is non-empty and its first character is
/// uppercase.
pub open spec fn spec_upper_start(name: Seq<char>) -> bool {
    name.len() > 0 && uppercase_char(name[0])
}

/// Whether the name starts with an uppercase character.
pub fn upper_start(name: &str) -> (r: bool)
    ensures
        r == spec_upper_start(name@),
{
    if name.unicode_len() == 0 {
        false
    } else {
        name.get_char(0).is_uppercase()
    }
}

/// Whether some name in the list has the given character sequence.
pub open spec fn seq_contains_name(names: Seq<String>, n: Seq<char>) -> bool {
    exists|i: int| 0 <= i < names.len() && names[i]@ == n
}

/// Whether `name` occurs in `names`.
pub fn contains_name(names: &Vec<String>, name: &str) -> (r: bool)
    ensures
        r == seq_contains_name(names@, name@),
{
    let n = names.len();
    let mut i: usize = 0;
    while i < n
        invariant
            i <= n,
            n == names@.len(),
            forall|j: int| 0 <= j < i ==> names@[j]@ != name@,
        decreases n - i,
    {
        if str_eq(names[i].as_str(), name) {
            return true;
        }
        i = i + 1;
    }
    false
}

} // verus!
