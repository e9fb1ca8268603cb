//! Reading a whole dictionary of translations.

use vstd::prelude::*;
use crate::text::push_str;

verus! {

/// The `LIKE` pattern of the keys of a dictionary: `{dict_key}.%`.
pub open spec fn dictionary_pattern_of(dict_key: Seq<char>) -> Seq<char> {
    dict_key + ".%"@
}

/// Builds [`dictionary_pattern_of`].
pub fn dictionary_pattern(dict_key: &str) -> (p: String)
    ensures
        p@ == dictionary_pattern_of(dict_key@),
{
    let mut p = String::from_str(dict_key);
    push_str(&mut p, ".%");
    p
}

} // verus!
