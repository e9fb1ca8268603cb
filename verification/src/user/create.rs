//! Registering a user through the API: the checks run in order, each one
//! answered by the database or the password hasher, and the first that fails
//! decides the answer.

use vstd::prelude::*;

verus! {

/// Where the creation of a user stands.
#[derive(Clone, Copy, Debug, PartialEq, Eq, Structural)]
pub enum NewUserState {
    /// Nothing is checked yet.
    Start,
    /// Waiting for the number of users with the requested phone.
    AwaitPhoneCount,
    /// Waiting for the number of users with the requested e-mail.
    AwaitEmailCount,
    /// Waiting for the password hash.
    AwaitHash,
    /// Waiting for the insert.
    AwaitInsert,
    /// The answer is given.
    Done,
}

/// What the server hands back.
#[derive(Clone, Copy, Debug, PartialEq, Eq, Structural)]
pub enum NewUserEvent {
    /// The format checks: of the e-mail, and of the phone when one is given.
    Checked { email_valid: bool, phone_valid: Option<bool> },
    /// A count of existing users; `None` when the query failed.
    Count(Option<i64>),
    /// Whether the password could be hashed.
    Hashed(bool),
    /// Whether the insert succeeded.
    Inserted(bool),
}

/// The answer to a creation request.
#[derive(Clone, Copy, Debug, PartialEq, Eq, Structural)]
pub enum NewUserReply {
    EmailInvalid,
    PhoneInvalid,
    PhoneExists,
    EmailExists,
    CheckFailed,
    HashFailed,
    DatabaseError,
    Created,
}

/// What the server does next.
#[derive(Clone, Copy, Debug, PartialEq, Eq, Structural)]
pub enum NewUserAction {
    CountPhone,
    CountEmail,
    HashPassword,
    InsertUser,
    Respond(NewUserReply),
}

/// One step of the creation of a user.
pub open spec fn new_user_next(state: NewUserState, event: NewUserEvent) -> (NewUserState, NewUserAction) {
    match (state, event) {
        (NewUserState::Start, NewUserEvent::Checked { email_valid, phone_valid }) => if !email_valid {
            (NewUserState::Done, NewUserAction::Respond(NewUserReply::EmailInvalid))
        } else {
            match phone_valid {
                Some(false) => (NewUserState::Done, NewUserAction::Respond(NewUserReply::PhoneInvalid)),
                Some(true) => (NewUserState::AwaitPhoneCount, NewUserAction::CountPhone),
                None => (NewUserState::AwaitEmailCount, NewUserAction::CountEmail),
            }
        },
        (NewUserState::AwaitPhoneCount, NewUserEvent::Count(c)) => match c {
            Some(n) => if n > 0 {
                (NewUserState::Done, NewUserAction::Respond(NewUserReply::PhoneExists))
            } else {
                (NewUserState::AwaitEmailCount, NewUserAction::CountEmail)
            },
            None => (NewUserState::Done, NewUserAction::Respond(NewUserReply::CheckFailed)),
        },
        (NewUserState::AwaitEmailCount, NewUserEvent::Count(c)) => match c {
            Some(n) => if n > 0 {
                (NewUserState::Done, NewUserAction::Respond(NewUserReply::EmailExists))
            } else {
                (NewUserState::AwaitHash, NewUserAction::HashPassword)
            },
            None => (NewUserState::Done, NewUserAction::Respond(NewUserReply::CheckFailed)),
        },
        (NewUserState::AwaitHash, NewUserEvent::Hashed(ok)) => if ok {
            (NewUserState::AwaitInsert, NewUserAction::InsertUser)
        } else {
            (NewUserState::Done, NewUserAction::Respond(NewUserReply::HashFailed))
        },
        (NewUserState::AwaitInsert, NewUserEvent::Inserted(ok)) => if ok {
            (NewUserState::Done, NewUserAction::Respond(NewUserReply::Created))
        } else {
            (NewUserState::Done, NewUserAction::Respond(NewUserReply::DatabaseError))
        },
        _ => (NewUserState::Done, NewUserAction::Respond(NewUserReply::DatabaseError)),
    }
}

/// The events that answer the action of a state.
pub open spec fn new_user_event_fits(state: NewUserState, event: NewUserEvent) -> bool {
    match state {
        NewUserState::Start => event is Checked,
        NewUserState::AwaitPhoneCount => event is Count,
        NewUserState::AwaitEmailCount => event is Count,
        NewUserState::AwaitHash => event is Hashed,
        NewUserState::AwaitInsert => event is Inserted,
        NewUserState::Done => false,
    }
}

/// Takes one step of [`new_user_next`].
pub fn new_user_step(state: NewUserState, event: NewUserEvent) -> (r: (NewUserState, NewUserAction))
    requires
        new_user_event_fits(state, event),
    ensures
        r == new_user_next(state, event),
{
    match (state, event) {
        (NewUserState::Start, NewUserEvent::Checked { email_valid, phone_valid }) => if !email_valid {
            (NewUserState::Done, NewUserAction::Respond(NewUserReply::EmailInvalid))
        } else {
            match phone_valid {
                Some(false) => (NewUserState::Done, NewUserAction::Respond(NewUserReply::PhoneInvalid)),
                Some(true) => (NewUserState::AwaitPhoneCount, NewUserAction::CountPhone),
                None => (NewUserState::AwaitEmailCount, NewUserAction::CountEmail),
            }
        },
        (NewUserState::AwaitPhoneCount, NewUserEvent::Count(c)) => match c {
            Some(n) => if n > 0 {
                (NewUserState::Done, NewUserAction::Respond(NewUserReply::PhoneExists))
            } else {
                (NewUserState::AwaitEmailCount, NewUserAction::CountEmail)
            },
            None => (NewUserState::Done, NewUserAction::Respond(NewUserReply::CheckFailed)),
        },
        (NewUserState::AwaitEmailCount, NewUserEvent::Count(c)) => match c {
            Some(n) => if n > 0 {
                (NewUserState::Done, NewUserAction::Respond(NewUserReply::EmailExists))
            } else {
                (NewUserState::AwaitHash, NewUserAction::HashPassword)
            },
            None => (NewUserState::Done, NewUserAction::Respond(NewUserReply::CheckFailed)),
        },
        (NewUserState::AwaitHash, NewUserEvent::Hashed(ok)) => if ok {
            (NewUserState::AwaitInsert, NewUserAction::InsertUser)
        } else {
            (NewUserState::Done, NewUserAction::Respond(NewUserReply::HashFailed))
        },
        (NewUserState::AwaitInsert, NewUserEvent::Inserted(ok)) => if ok {
            (NewUserState::Done, NewUserAction::Respond(NewUserReply::Created))
        } else {
            (NewUserState::Done, NewUserAction::Respond(NewUserReply::DatabaseError))
        },
        _ => (NewUserState::Done, NewUserAction::Respond(NewUserReply::DatabaseError)),
    }
}

impl NewUserReply {
    /// The HTTP status of the answer.
    pub fn status(&self) -> (s: u16)
        ensures
            s == match *self {
                NewUserReply::EmailInvalid => 400u16,
                NewUserReply::PhoneInvalid => 400u16,
                NewUserReply::PhoneExists => 409u16,
                NewUserReply::EmailExists => 409u16,
                NewUserReply::CheckFailed => 500u16,
                NewUserReply::HashFailed => 500u16,
                NewUserReply::DatabaseError => 500u16,
                NewUserReply::Created => 201u16,
            },
    {
        match self {
            NewUserReply::EmailInvalid => 400,
            NewUserReply::PhoneInvalid => 400,
            NewUserReply::PhoneExists => 409,
            NewUserReply::EmailExists => 409,
            NewUserReply::CheckFailed => 500,
            NewUserReply::HashFailed => 500,
            NewUserReply::DatabaseError => 500,
            NewUserReply::Created => 201,
        }
    }

    /// The field that the error is reported under; none for a success.
    pub fn field(&self) -> (f: Option<&'static str>)
        ensures
            match *self {
                NewUserReply::EmailInvalid => f == Some("email"),
                NewUserReply::PhoneInvalid => f == Some("phone"),
                NewUserReply::PhoneExists => f == Some("phone"),
                NewUserReply::EmailExists => f == Some("email"),
                NewUserReply::CheckFailed => f == Some("database"),
                NewUserReply::HashFailed => f == Some("password"),
                NewUserReply::DatabaseError => f == Some("database"),
                NewUserReply::Created => f is None,
            },
    {
        match self {
            NewUserReply::EmailInvalid => Some("email"),
            NewUserReply::PhoneInvalid => Some("phone"),
            NewUserReply::PhoneExists => Some("phone"),
            NewUserReply::EmailExists => Some("email"),
            NewUserReply::CheckFailed => Some("database"),
            NewUserReply::HashFailed => Some("password"),
            NewUserReply::DatabaseError => Some("database"),
            NewUserReply::Created => None,
        }
    }

    /// The translation key of the answer's message.
    pub fn message_key(&self) -> (k: &'static str)
        ensures
            match *self {
                NewUserReply::EmailInvalid => k == "user.email_invalid",
                NewUserReply::PhoneInvalid => k == "user.phone_invalid",
                NewUserReply::PhoneExists => k == "user.phone_exists",
                NewUserReply::EmailExists => k == "user.email_exists",
                NewUserReply::CheckFailed => k == "user.check_exists_error",
                NewUserReply::HashFailed => k == "user.password_hash_error",
                NewUserReply::DatabaseError => k == "general.db_error",
                NewUserReply::Created => k == "user.created",
            },
    {
        match self {
            NewUserReply::EmailInvalid => "user.email_invalid",
            NewUserReply::PhoneInvalid => "user.phone_invalid",
            NewUserReply::PhoneExists => "user.phone_exists",
            NewUserReply::EmailExists => "user.email_exists",
            NewUserReply::CheckFailed => "user.check_exists_error",
            NewUserReply::HashFailed => "user.password_hash_error",
            NewUserReply::DatabaseError => "general.db_error",
            NewUserReply::Created => "user.created",
        }
    }
}

/// The answer to a whole creation request, from the format checks and what
/// the database and the hasher answer: the first failing check decides.
pub open spec fn new_user_outcome(
    email_valid: bool,
    phone_valid: Option<bool>,
    phone_count: Option<i64>,
    email_count: Option<i64>,
    hashed: bool,
    inserted: bool,
) -> NewUserReply {
    if !email_valid {
        NewUserReply::EmailInvalid
    } else if phone_valid == Some(false) {
        NewUserReply::PhoneInvalid
    } else if phone_valid == Some(true) && phone_count is None {
        NewUserReply::CheckFailed
    } else if phone_valid == Some(true) && phone_count.unwrap() > 0 {
        NewUserReply::PhoneExists
    } else if email_count is None {
        NewUserReply::CheckFailed
    } else if email_count.unwrap() > 0 {
        NewUserReply::EmailExists
    } else if !hashed {
        NewUserReply::HashFailed
    } else if !inserted {
        NewUserReply::DatabaseError
    } else {
        NewUserReply::Created
    }
}

/// The reply that the machine ends with when it is answered with these
/// results, after at most `fuel` steps from `state`.
pub open spec fn new_user_drive(
    state: NewUserState,
    event: NewUserEvent,
    phone_count: Option<i64>,
    email_count: Option<i64>,
    hashed: bool,
    inserted: bool,
    fuel: nat,
) -> Option<NewUserReply>
    decreases fuel,
{
    if fuel == 0 {
        None
    } else {
        let (next, action) = new_user_next(state, event);
        match action {
            NewUserAction::CountPhone => new_user_drive(next, NewUserEvent::Count(phone_count), phone_count, email_count, hashed, inserted, (fuel - 1) as nat),
            NewUserAction::CountEmail => new_user_drive(next, NewUserEvent::Count(email_count), phone_count, email_count, hashed, inserted, (fuel - 1) as nat),
            NewUserAction::HashPassword => new_user_drive(next, NewUserEvent::Hashed(hashed), phone_count, email_count, hashed, inserted, (fuel - 1) as nat),
            NewUserAction::InsertUser => new_user_drive(next, NewUserEvent::Inserted(inserted), phone_count, email_count, hashed, inserted, (fuel - 1) as nat),
            NewUserAction::Respond(reply) => Some(reply),
        }
    }
}

/// A creation request ends within five steps with [`new_user_outcome`]; in
/// particular a user is created only with a valid e-mail, a valid or absent
/// phone, neither of them taken, and a hashed password.
pub proof fn new_user_run(
    email_valid: bool,
    phone_valid: Option<bool>,
    phone_count: Option<i64>,
    email_count: Option<i64>,
    hashed: bool,
    inserted: bool,
)
    ensures
        new_user_drive(
            NewUserState::Start,
            NewUserEvent::Checked { email_valid, phone_valid },
            phone_count,
            email_count,
            hashed,
            inserted,
            5,
        ) == Some(new_user_outcome(email_valid, phone_valid, phone_count, email_count, hashed, inserted)),
        new_user_outcome(email_valid, phone_valid, phone_count, email_count, hashed, inserted) == NewUserReply::Created
            ==> email_valid && phone_valid != Some(false)
            && (phone_valid == Some(true) ==> phone_count is Some && phone_count.unwrap() <= 0)
            && email_count is Some && email_count.unwrap() <= 0 && hashed && inserted,
{
    reveal_with_fuel(new_user_drive, 6);
}

} // verus!
