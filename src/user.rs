//! Users: registration, search filters and partial updates.
use vstd::prelude::*;
use crate::error::LibraryError;
use crate::value::{
    Value, ValueView, entries_view, entry_if, push_text, push_texts, text_of, texts_of, texts_view,
};

verus! {

/// A registered user, without its store identifier.
#[derive(Clone, Debug)]
pub struct User {
    pub first_name: String,
    pub last_name: String,
    pub email: String,
    pub birth_date: String,
    /// Identifiers of the books this user holds, in the order they were lent.
    pub borrowed_books: Vec<String>,
    pub role: String,
}

pub struct UserView {
    pub first_name: Seq<char>,
    pub last_name: Seq<char>,
    pub email: Seq<char>,
    pub birth_date: Seq<char>,
    pub borrowed_books: Seq<Seq<char>>,
    pub role: Seq<char>,
}

impl View for User {
    type V = UserView;

    open spec fn view(&self) -> UserView {
        UserView {
            first_name: self.first_name@,
            last_name: self.last_name@,
            email: self.email@,
            birth_date: self.birth_date@,
            borrowed_books: texts_view(self.borrowed_books@),
            role: self.role@,
        }
    }
}

/// What a client sends to register a user.
#[derive(Clone, Debug)]
pub struct NewUser {
    pub first_name: String,
    pub last_name: String,
    pub email: String,
    pub birth_date: String,
}

/// Search criteria: each present field must match exactly.
#[derive(Clone, Debug)]
pub struct SearchUser {
    pub first_name: Option<String>,
    pub last_name: Option<String>,
    pub email: Option<String>,
}

/// A partial update: each present field replaces the stored one.
#[derive(Clone, Debug)]
pub struct UpdateUser {
    pub first_name: Option<String>,
    pub last_name: Option<String>,
    pub email: Option<String>,
    pub birth_date: Option<String>,
    pub borrowed_books: Option<Vec<String>>,
    pub role: Option<String>,
}

/// The stored fields of a user.
#[derive(Clone, Copy, Debug, PartialEq, Eq, Structural)]
pub enum UserField {
    FirstName,
    LastName,
    Email,
    BirthDate,
    BorrowedBooks,
    Role,
}

pub open spec fn user_field_name(f: UserField) -> Seq<char> {
    match f {
        UserField::FirstName => "first_name"@,
        UserField::LastName => "last_name"@,
        UserField::Email => "email"@,
        UserField::BirthDate => "birth_date"@,
        UserField::BorrowedBooks => "borrowed_books"@,
        UserField::Role => "role"@,
    }
}

impl UserField {
    /// The field's key in a stored document.
    pub fn name(&self) -> (r: &'static str)
        ensures
            r@ == user_field_name(*self),
    {
        proof {
            reveal_strlit("first_name");
            reveal_strlit("last_name");
            reveal_strlit("email");
            reveal_strlit("birth_date");
            reveal_strlit("borrowed_books");
            reveal_strlit("role");
        }
        match self {
            UserField::FirstName => "first_name",
            UserField::LastName => "last_name",
            UserField::Email => "email",
            UserField::BirthDate => "birth_date",
            UserField::BorrowedBooks => "borrowed_books",
            UserField::Role => "role",
        }
    }
}

/// The role every new user gets.
pub open spec fn default_role() -> Seq<char> {
    "user"@
}

/// The user that registering `n` creates: no borrowed books, the default role.
pub open spec fn user_from_new(n: NewUser) -> UserView {
    UserView {
        first_name: n.first_name@,
        last_name: n.last_name@,
        email: n.email@,
        birth_date: n.birth_date@,
        borrowed_books: Seq::empty(),
        role: default_role(),
    }
}

impl User {
    /// The user that a registration creates.
    pub fn from(value: NewUser) -> (r: User)
        ensures
            r@ == user_from_new(value),
    {
        proof {
            reveal_strlit("user");
        }
        let r = User {
            first_name: value.first_name,
            last_name: value.last_name,
            email: value.email,
            birth_date: value.birth_date,
            borrowed_books: Vec::new(),
            role: "user".to_owned(),
        };
        assert(r@.borrowed_books =~= Seq::<Seq<char>>::empty());
        r
    }
}

pub open spec fn user_search_entries(s: SearchUser) -> Seq<(UserField, ValueView)> {
    entry_if(UserField::FirstName, text_of(s.first_name))
        + entry_if(UserField::LastName, text_of(s.last_name))
        + entry_if(UserField::Email, text_of(s.email))
}

pub open spec fn user_search_is_empty(s: SearchUser) -> bool {
    s.first_name.is_none() && s.last_name.is_none() && s.email.is_none()
}

/// The equality filter of a user search, one pair per present criterion.
/// A search without any criterion is refused.
pub fn search_user(search: &SearchUser) -> (r: Result<Vec<(UserField, Value)>, LibraryError>)
    ensures
        r.is_err() <==> user_search_is_empty(*search),
        r matches Err(e) ==> e == LibraryError::NoSearchCriteria,
        r matches Ok(v) ==> entries_view(v@) == user_search_entries(*search),
{
    if search.first_name.is_none() && search.last_name.is_none() && search.email.is_none() {
        return Err(LibraryError::NoSearchCriteria);
    }
    let mut entries: Vec<(UserField, Value)> = Vec::new();
    assert(entries_view(entries@) =~= Seq::empty());
    push_text(&mut entries, UserField::FirstName, &search.first_name);
    push_text(&mut entries, UserField::LastName, &search.last_name);
    push_text(&mut entries, UserField::Email, &search.email);
    assert(entries_view(entries@) =~= user_search_entries(*search));
    Ok(entries)
}

pub open spec fn user_update_entries(u: UpdateUser) -> Seq<(UserField, ValueView)> {
    entry_if(UserField::FirstName, text_of(u.first_name))
        + entry_if(UserField::LastName, text_of(u.last_name))
        + entry_if(UserField::Email, text_of(u.email))
        + entry_if(UserField::BirthDate, text_of(u.birth_date))
        + entry_if(UserField::BorrowedBooks, texts_of(u.borrowed_books))
        + entry_if(UserField::Role, text_of(u.role))
}

/// The value that `u` gives to field `f`, if any.
pub open spec fn user_update_value(u: UpdateUser, f: UserField) -> Option<ValueView> {
    match f {
        UserField::FirstName => text_of(u.first_name),
        UserField::LastName => text_of(u.last_name),
        UserField::Email => text_of(u.email),
        UserField::BirthDate => text_of(u.birth_date),
        UserField::BorrowedBooks => texts_of(u.borrowed_books),
        UserField::Role => text_of(u.role),
    }
}

/// A partial update of a user sets a field exactly when the update holds a
/// value for it, to that value, and names each field at most once.
pub proof fn lemma_user_update_fields(u: UpdateUser)
    ensures
        forall|i: int|
            0 <= i < user_update_entries(u).len() ==> user_update_value(u, #[trigger] user_update_entries(u)[i].0)
                == Some(user_update_entries(u)[i].1),
        forall|f: UserField|
            (#[trigger] user_update_value(u, f)).is_some() ==> exists|i: int|
                0 <= i < user_update_entries(u).len() && user_update_entries(u)[i].0 == f,
        forall|i: int, j: int|
            0 <= i < j < user_update_entries(u).len() ==> user_update_entries(u)[i].0
                != user_update_entries(u)[j].0,
{
    let e = user_update_entries(u);
    let a = entry_if(UserField::FirstName, text_of(u.first_name));
    let b = entry_if(UserField::LastName, text_of(u.last_name));
    let c = entry_if(UserField::Email, text_of(u.email));
    let d = entry_if(UserField::BirthDate, text_of(u.birth_date));
    let g = entry_if(UserField::BorrowedBooks, texts_of(u.borrowed_books));
    let h = entry_if(UserField::Role, text_of(u.role));
    assert(e == a + b + c + d + g + h);
    assert forall|f: UserField| (#[trigger] user_update_value(u, f)).is_some() implies exists|i: int|
        0 <= i < e.len() && e[i].0 == f by {
        let k: int = match f {
            UserField::FirstName => 0,
            UserField::LastName => a.len() as int,
            UserField::Email => (a + b).len() as int,
            UserField::BirthDate => (a + b + c).len() as int,
            UserField::BorrowedBooks => (a + b + c + d).len() as int,
            UserField::Role => (a + b + c + d + g).len() as int,
        };
        assert(e[k].0 == f);
    }
}

/// The fields that a partial update of a user sets, one pair per present
/// field. With no field present the list is empty and the update changes
/// nothing.
pub fn update_user(update: &UpdateUser) -> (r: Vec<(UserField, Value)>)
    ensures
        entries_view(r@) == user_update_entries(*update),
{
    let mut entries: Vec<(UserField, Value)> = Vec::new();
    assert(entries_view(entries@) =~= Seq::empty());
    push_text(&mut entries, UserField::FirstName, &update.first_name);
    push_text(&mut entries, UserField::LastName, &update.last_name);
    push_text(&mut entries, UserField::Email, &update.email);
    push_text(&mut entries, UserField::BirthDate, &update.birth_date);
    push_texts(&mut entries, UserField::BorrowedBooks, &update.borrowed_books);
    push_text(&mut entries, UserField::Role, &update.role);
    assert(entries_view(entries@) =~= user_update_entries(*update));
    entries
}

/// Whether chrono reads `s` as a calendar date in the form `%Y-%m-%d`.
pub uninterp spec fn is_ymd_date(s: Seq<char>) -> bool;

/// Relies on chrono::NaiveDate::parse_from_str with the format "%Y-%m-%d":
/// whether it succeeds depends on the text alone.
#[verifier::external_body]
fn parses_as_ymd_date(s: &str) -> (r: bool)
    ensures
        r == is_ymd_date(s@),
{
    chrono::NaiveDate::parse_from_str(s, "%Y-%m-%d").is_ok()
}

/// The outcome of a registration, given whether the birth date is a valid
/// date and whether the email is already taken. A bad date is reported first.
pub fn register_user(new_user: NewUser, date_is_valid: bool, email_in_use: bool) -> (r: Result<
    User,
    LibraryError,
>)
    ensures
        r.is_ok() <==> date_is_valid && !email_in_use,
        r matches Ok(u) ==> u@ == user_from_new(new_user),
        r matches Err(e) ==> e == (if !date_is_valid {
            LibraryError::InvalidDate
        } else {
            LibraryError::UserAlreadyExists
        }),
{
    if !date_is_valid {
        return Err(LibraryError::InvalidDate);
    }
    if email_in_use {
        return Err(LibraryError::UserAlreadyExists);
    }
    Ok(User::from(new_user))
}

/// Registers a user: the birth date must read as `YYYY-MM-DD` and the email
/// must not belong to a registered user.
pub fn create_user(new_user: NewUser, email_in_use: bool) -> (r: Result<User, LibraryError>)
    ensures
        r.is_ok() <==> is_ymd_date(new_user.birth_date@) && !email_in_use,
        r matches Ok(u) ==> u@ == user_from_new(new_user),
        r matches Err(e) ==> e == (if !is_ymd_date(new_user.birth_date@) {
            LibraryError::InvalidDate
        } else {
            LibraryError::UserAlreadyExists
        }),
{
    let date_is_valid = parses_as_ymd_date(new_user.birth_date.as_str());
    register_user(new_user, date_is_valid, email_in_use)
}

} // verus!
