use vstd::prelude::*;
use crate::text::{find_char_from, lowercase, next_index_of, opt_str, substring, to_lowercase, trim, trimmed};

verus! {

/// The locale of a request: the first entry of its `Accept-Language`
/// header (up to the first `,` or `;`), trimmed and lower-cased; `en` when
/// there is no readable header.
pub open spec fn accept_language_locale(header: Option<Seq<char>>) -> Seq<char> {
    match header {
        None => "en"@,
        Some(h) => {
            let comma = next_index_of(h, 0, ',');
            let semicolon = next_index_of(h, 0, ';');
            let end = if comma < semicolon { comma } else { semicolon };
            lowercase(trimmed(h.take(end)))
        },
    }
}

/// Reads the locale from the `Accept-Language` header (`None` when the
/// header is absent or not visible ASCII).
pub fn locale_from_accept_language(header: Option<&str>) -> (r: String)
    ensures
        r@ == accept_language_locale(opt_str(header)),
{
    match header {
        None => String::from_str("en"),
        Some(h) => {
            let comma = find_char_from(h, 0, ',');
            let semicolon = find_char_from(h, 0, ';');
            let end = if comma < semicolon { comma } else { semicolon };
            let first = substring(h, 0, end);
            assert(h@.subrange(0, end as int) == h@.take(end as int));
            let t = trim(first.as_str());
            to_lowercase(t.as_str())
        },
    }
}

} // verus!
