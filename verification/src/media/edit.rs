//! Changing a stored file's title or alt text.

use vstd::prelude::*;
use crate::common::sql::{column_if, lemma_no_set_clauses, lemma_set_clauses_end, push_column, set_list};
use crate::text::{decimal, push_decimal, push_str, substring};

verus! {

/// The columns a media change request sets, in statement order.
pub open spec fn media_update_columns(has_title: bool, has_alt: bool) -> Seq<(Seq<char>, Seq<char>)> {
    column_if(has_title, "title"@, ""@) + column_if(has_alt, "alt"@, ""@)
}

/// The `UPDATE` statement of a media change: the changed columns assigned
/// from `$1` and separated by `, `, then a `WHERE` on the file's UUID as the
/// last placeholder; none when neither field is present.
pub open spec fn media_update_statement(has_title: bool, has_alt: bool) -> Option<Seq<char>> {
    let cols = media_update_columns(has_title, has_alt);
    if cols.len() == 0 {
        None
    } else {
        Some("UPDATE media SET "@ + set_list(cols) + " WHERE uuid = $"@ + decimal(cols.len() + 1))
    }
}

/// Builds [`media_update_statement`]; `None` is answered with 400 ("No
/// fields to update").
pub fn media_update_sql(has_title: bool, has_alt: bool) -> (r: Option<String>)
    ensures
        match r {
            Some(s) => media_update_statement(has_title, has_alt) == Some(s@),
            None => media_update_statement(has_title, has_alt) is None,
        },
{
    let mut sql = String::from_str("UPDATE media SET ");
    let ghost head = sql@;
    let mut count: usize = 0;
    let ghost mut cols: Seq<(Seq<char>, Seq<char>)> = Seq::empty();
    proof {
        lemma_no_set_clauses();
    }
    push_column(&mut sql, &mut count, has_title, "title", "", Ghost(head), Ghost(cols));
    proof { cols = cols + column_if(has_title, "title"@, ""@); }
    push_column(&mut sql, &mut count, has_alt, "alt", "", Ghost(head), Ghost(cols));
    proof { cols = cols + column_if(has_alt, "alt"@, ""@); }
    if count == 0 {
        return None;
    }
    proof {
        lemma_set_clauses_end(cols);
    }
    let n = sql.as_str().unicode_len();
    let mut out = substring(sql.as_str(), 0, n - 2);
    assert(out@ == head + set_list(cols));
    push_str(&mut out, " WHERE uuid = $");
    push_decimal(&mut out, count + 1);
    Some(out)
}

/// A media change is refused when it carries neither a title nor an alt
/// text, and only then.
pub proof fn media_update_needs_a_field(has_title: bool, has_alt: bool)
    ensures
        media_update_statement(has_title, has_alt) is None <==> !has_title && !has_alt,
{
    reveal(column_if);
}

} // verus!
