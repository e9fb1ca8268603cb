//! Changing a user's profile: who may, and the statement that writes it.

use vstd::prelude::*;
use crate::common::sql::{column_if, lemma_no_set_clauses, push_column, set_clauses};
use crate::text::{decimal, push_decimal, push_str};

verus! {

/// Which fields of a profile change request are present.
#[derive(Clone, Copy, Debug, PartialEq, Eq, Structural)]
pub struct UserUpdateFields {
    pub email: bool,
    pub phone: bool,
    pub first_name: bool,
    pub second_name: bool,
    pub last_name: bool,
    pub birth_date: bool,
    pub role: bool,
    pub status: bool,
    pub avatar: bool,
    pub street: bool,
    pub gender: bool,
    pub city: bool,
    pub avatar_uuid: bool,
}

/// The personal columns a request changes, in statement order.
pub open spec fn profile_columns(f: UserUpdateFields) -> Seq<(Seq<char>, Seq<char>)> {
    column_if(f.email, "email"@, ""@)
        + column_if(f.phone, "phone"@, ""@)
        + column_if(f.first_name, "first_name"@, ""@)
        + column_if(f.second_name, "second_name"@, ""@)
        + column_if(f.last_name, "last_name"@, ""@)
        + column_if(f.birth_date, "birth_date"@, ""@)
}

/// `columns` followed by the account columns a request changes, in
/// statement order; the avatar UUID's placeholder is cast to `uuid`.
pub open spec fn with_account_columns(
    columns: Seq<(Seq<char>, Seq<char>)>,
    f: UserUpdateFields,
) -> Seq<(Seq<char>, Seq<char>)> {
    columns
        + column_if(f.role, "role"@, ""@)
        + column_if(f.status, "status"@, ""@)
        + column_if(f.avatar, "avatar"@, ""@)
        + column_if(f.street, "street"@, ""@)
        + column_if(f.gender, "gender"@, ""@)
        + column_if(f.city, "city"@, ""@)
        + column_if(f.avatar_uuid, "avatar_uuid"@, "::uuid"@)
}

/// The columns a request changes, in the order the statement sets and binds
/// them.
pub open spec fn user_update_columns(f: UserUpdateFields) -> Seq<(Seq<char>, Seq<char>)> {
    with_account_columns(profile_columns(f), f)
}

/// The `UPDATE` statement of a profile change: the changed columns from
/// `$1`, `updated_at` set to now, and the user's UUID as the last
/// placeholder; none when no field is present.
pub open spec fn user_update_statement(f: UserUpdateFields) -> Option<Seq<char>> {
    let cols = user_update_columns(f);
    if cols.len() == 0 {
        None
    } else {
        Some(
            "UPDATE guest_user SET "@ + set_clauses(cols) + "updated_at = NOW() WHERE uuid = $"@
                + decimal(cols.len() + 1),
        )
    }
}

/// A user may change or delete only their own account.
pub open spec fn may_manage_user(me: u128, target: u128) -> bool {
    me == target
}

/// Whether the signed-in user `me` may change or delete the account `target`.
pub fn may_change_user(me: u128, target: u128) -> (b: bool)
    ensures
        b == may_manage_user(me, target),
{
    me == target
}

fn push_profile_columns(sql: &mut String, count: &mut usize, f: &UserUpdateFields, Ghost(head): Ghost<Seq<char>>)
    requires
        old(sql)@ == head,
        *old(count) == 0,
    ensures
        final(sql)@ == head + set_clauses(profile_columns(*f)),
        *final(count) == profile_columns(*f).len(),
        *final(count) <= 6,
{
    let ghost mut cols: Seq<(Seq<char>, Seq<char>)> = Seq::empty();
    proof {
        lemma_no_set_clauses();
    }
    push_column(sql, count, f.email, "email", "", Ghost(head), Ghost(cols));
    proof { cols = cols + column_if(f.email, "email"@, ""@); }
    push_column(sql, count, f.phone, "phone", "", Ghost(head), Ghost(cols));
    proof { cols = cols + column_if(f.phone, "phone"@, ""@); }
    push_column(sql, count, f.first_name, "first_name", "", Ghost(head), Ghost(cols));
    proof { cols = cols + column_if(f.first_name, "first_name"@, ""@); }
    push_column(sql, count, f.second_name, "second_name", "", Ghost(head), Ghost(cols));
    proof { cols = cols + column_if(f.second_name, "second_name"@, ""@); }
    push_column(sql, count, f.last_name, "last_name", "", Ghost(head), Ghost(cols));
    proof { cols = cols + column_if(f.last_name, "last_name"@, ""@); }
    push_column(sql, count, f.birth_date, "birth_date", "", Ghost(head), Ghost(cols));
}

fn push_account_columns(
    sql: &mut String,
    count: &mut usize,
    f: &UserUpdateFields,
    Ghost(head): Ghost<Seq<char>>,
    Ghost(start): Ghost<Seq<(Seq<char>, Seq<char>)>>,
)
    requires
        old(sql)@ == head + set_clauses(start),
        *old(count) == start.len(),
        *old(count) <= 6,
    ensures
        final(sql)@ == head + set_clauses(with_account_columns(start, *f)),
        *final(count) == with_account_columns(start, *f).len(),
        *final(count) <= 13,
{
    let ghost mut cols = start;
    push_column(sql, count, f.role, "role", "", Ghost(head), Ghost(cols));
    proof { cols = cols + column_if(f.role, "role"@, ""@); }
    push_column(sql, count, f.status, "status", "", Ghost(head), Ghost(cols));
    proof { cols = cols + column_if(f.status, "status"@, ""@); }
    push_column(sql, count, f.avatar, "avatar", "", Ghost(head), Ghost(cols));
    proof { cols = cols + column_if(f.avatar, "avatar"@, ""@); }
    push_column(sql, count, f.street, "street", "", Ghost(head), Ghost(cols));
    proof { cols = cols + column_if(f.street, "street"@, ""@); }
    push_column(sql, count, f.gender, "gender", "", Ghost(head), Ghost(cols));
    proof { cols = cols + column_if(f.gender, "gender"@, ""@); }
    push_column(sql, count, f.city, "city", "", Ghost(head), Ghost(cols));
    proof { cols = cols + column_if(f.city, "city"@, ""@); }
    push_column(sql, count, f.avatar_uuid, "avatar_uuid", "::uuid", Ghost(head), Ghost(cols));
}

/// Builds [`user_update_statement`]; `None` is answered with 400
/// (`user.no_fields_to_update`).
pub fn user_update_sql(f: &UserUpdateFields) -> (r: Option<String>)
    ensures
        match r {
            Some(s) => user_update_statement(*f) == Some(s@),
            None => user_update_statement(*f) is None,
        },
{
    let mut sql = String::from_str("UPDATE guest_user SET ");
    let ghost head = sql@;
    let mut count: usize = 0;
    push_profile_columns(&mut sql, &mut count, f, Ghost(head));
    push_account_columns(&mut sql, &mut count, f, Ghost(head), Ghost(profile_columns(*f)));
    if count == 0 {
        return None;
    }
    push_str(&mut sql, "updated_at = NOW() WHERE uuid = $");
    push_decimal(&mut sql, count + 1);
    Some(sql)
}

/// A change request is refused when it carries no field, and only then; the
/// user's UUID always takes the placeholder after the last changed column.
pub proof fn update_needs_a_field(f: UserUpdateFields)
    ensures
        user_update_statement(f) is None <==> !(f.email || f.phone || f.first_name || f.second_name || f.last_name
            || f.birth_date || f.role || f.status || f.avatar || f.street || f.gender || f.city || f.avatar_uuid),
        user_update_columns(f).len() <= 13,
{
    reveal(column_if);
}

} // verus!
