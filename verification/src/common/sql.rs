//! The `SET` list of an `UPDATE` statement over the columns a request changes.

use vstd::prelude::*;
use crate::text::{decimal, push_decimal, push_str};

verus! {

/// `name = $n<cast>, `: the assignment of a column to placeholder `n`.
pub open spec fn set_clause(name: Seq<char>, cast: Seq<char>, n: nat) -> Seq<char> {
    name + " = $"@ + decimal(n) + cast + ", "@
}

/// The assignments of `columns` (name and cast), numbered from `$1` in order.
#[verifier::opaque]
pub open spec fn set_clauses(columns: Seq<(Seq<char>, Seq<char>)>) -> Seq<char>
    decreases columns.len(),
{
    if columns.len() == 0 {
        Seq::empty()
    } else {
        set_clauses(columns.drop_last()) + set_clause(
            columns.last().0,
            columns.last().1,
            columns.len(),
        )
    }
}

/// No columns, no assignments.
pub proof fn lemma_no_set_clauses()
    ensures
        set_clauses(Seq::empty()) == Seq::<char>::empty(),
{
    reveal(set_clauses);
}

/// The assignments of `columns` separated by `, `, with nothing after the
/// last one.
pub open spec fn set_list(columns: Seq<(Seq<char>, Seq<char>)>) -> Seq<char> {
    let all = set_clauses(columns);
    all.subrange(0, all.len() - 2)
}

/// When at least one column is set, the assignments end in `, `, and what
/// comes before that separator is [`set_list`].
pub proof fn lemma_set_clauses_end(columns: Seq<(Seq<char>, Seq<char>)>)
    requires
        columns.len() > 0,
    ensures
        set_clauses(columns) == set_list(columns) + ", "@,
        set_clauses(columns).len() >= 2,
{
    reveal(set_clauses);
    reveal_strlit(", ");
    let last = set_clause(columns.last().0, columns.last().1, columns.len());
    assert(set_clauses(columns) == set_clauses(columns.drop_last()) + last);
    assert(set_clauses(columns) =~= set_list(columns) + ", "@);
}

/// The column (name and cast) when the request changes it, else nothing.
#[verifier::opaque]
pub open spec fn column_if(changed: bool, name: Seq<char>, cast: Seq<char>) -> Seq<(Seq<char>, Seq<char>)> {
    if changed {
        seq![(name, cast)]
    } else {
        Seq::empty()
    }
}

/// Appends the assignment of one column when it is changed, and counts it.
pub(crate) fn push_column(
    sql: &mut String,
    count: &mut usize,
    changed: bool,
    name: &str,
    cast: &str,
    Ghost(head): Ghost<Seq<char>>,
    Ghost(columns): Ghost<Seq<(Seq<char>, Seq<char>)>>,
)
    requires
        old(sql)@ == head + set_clauses(columns),
        *old(count) == columns.len(),
        *old(count) < 1000,
    ensures
        final(sql)@ == head + set_clauses(columns + column_if(changed, name@, cast@)),
        *final(count) == (columns + column_if(changed, name@, cast@)).len(),
        *final(count) <= *old(count) + 1,
{
    let ghost next = columns + column_if(changed, name@, cast@);
    proof {
        reveal(set_clauses);
        reveal(column_if);
    }
    if changed {
        assert(next.drop_last() == columns);
        *count = *count + 1;
        push_str(sql, name);
        push_str(sql, " = $");
        push_decimal(sql, *count);
        push_str(sql, cast);
        push_str(sql, ", ");
    } else {
        assert(next == columns);
    }
}

/// The query for the media attached to an entity through the link table
/// `table`, whose column `column` names the entity (`$1`).
pub open spec fn entity_media_query_of(table: Seq<char>, column: Seq<char>) -> Seq<char> {
    "SELECT m.url, m.alt, m.title, m.media_type::text as media_type\n         FROM "@ + table
        + " em\n         JOIN media m ON em.media_uuid = m.uuid\n         WHERE em."@ + column
        + " = $1\n         LIMIT 1"@
}

/// Builds [`entity_media_query_of`].
pub fn entity_media_query(table: &str, column: &str) -> (q: String)
    ensures
        q@ == entity_media_query_of(table@, column@),
{
    let mut q = String::from_str("SELECT m.url, m.alt, m.title, m.media_type::text as media_type\n         FROM ");
    push_str(&mut q, table);
    push_str(&mut q, " em\n         JOIN media m ON em.media_uuid = m.uuid\n         WHERE em.");
    push_str(&mut q, column);
    push_str(&mut q, " = $1\n         LIMIT 1");
    q
}

} // verus!
