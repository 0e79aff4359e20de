use vstd::prelude::*;

verus! {

/// The broad class of a failure, as a client should see it.
#[derive(Clone, Copy, Debug, PartialEq, Eq, Structural)]
pub enum ErrorKind {
    /// An identifier does not resolve to a stored record.
    NotFound,
    /// A unique field (a user's email, a genre's name) is already taken.
    Conflict,
    /// An input is malformed (an identifier, a date).
    Validation,
    /// The request breaks a lending rule.
    DomainRule,
    /// A search was asked for without any criterion.
    NoCriteria,
}

/// Every way in which the library's logic refuses a request.
#[derive(Clone, Copy, Debug, PartialEq, Eq, Structural)]
pub enum LibraryError {
    /// The text is not a store identifier (24 hexadecimal digits).
    InvalidId,
    /// The requested book or user does not exist.
    NotFound,
    /// The book is already lent out.
    BookNotAvailable,
    /// The book is not lent out.
    BookNotBorrowed,
    /// A user with that email is already registered.
    UserAlreadyExists,
    /// A genre with that name already exists.
    GenreAlreadyExists,
    /// The birth date is not a `YYYY-MM-DD` date.
    InvalidDate,
    /// A user search named no field at all.
    NoSearchCriteria,
}

pub open spec fn kind_of(e: LibraryError) -> ErrorKind {
    match e {
        LibraryError::InvalidId => ErrorKind::Validation,
        LibraryError::NotFound => ErrorKind::NotFound,
        LibraryError::BookNotAvailable => ErrorKind::DomainRule,
        LibraryError::BookNotBorrowed => ErrorKind::DomainRule,
        LibraryError::UserAlreadyExists => ErrorKind::Conflict,
        LibraryError::GenreAlreadyExists => ErrorKind::Conflict,
        LibraryError::InvalidDate => ErrorKind::Validation,
        LibraryError::NoSearchCriteria => ErrorKind::NoCriteria,
    }
}

pub open spec fn status_of(k: ErrorKind) -> u16 {
    match k {
        ErrorKind::NotFound => 404,
        ErrorKind::Conflict => 409,
        ErrorKind::Validation => 400,
        ErrorKind::DomainRule => 400,
        ErrorKind::NoCriteria => 400,
    }
}

pub open spec fn message_of(e: LibraryError) -> Seq<char> {
    match e {
        LibraryError::InvalidId => "Invalid identifier"@,
        LibraryError::NotFound => "Not found"@,
        LibraryError::BookNotAvailable => "Book not available"@,
        LibraryError::BookNotBorrowed => "Book not borrowed"@,
        LibraryError::UserAlreadyExists => "User already exist"@,
        LibraryError::GenreAlreadyExists => "Genre already exist"@,
        LibraryError::InvalidDate => "Invalid date format"@,
        LibraryError::NoSearchCriteria => "No search criteria provided"@,
    }
}

impl ErrorKind {
    /// The HTTP status that reports this kind of failure.
    pub fn status(&self) -> (r: u16)
        ensures
            r == status_of(*self),
    {
        match self {
            ErrorKind::NotFound => 404,
            ErrorKind::Conflict => 409,
            ErrorKind::Validation => 400,
            ErrorKind::DomainRule => 400,
            ErrorKind::NoCriteria => 400,
        }
    }
}

impl LibraryError {
    pub fn kind(&self) -> (r: ErrorKind)
        ensures
            r == kind_of(*self),
    {
        match self {
            LibraryError::InvalidId => ErrorKind::Validation,
            LibraryError::NotFound => ErrorKind::NotFound,
            LibraryError::BookNotAvailable => ErrorKind::DomainRule,
            LibraryError::BookNotBorrowed => ErrorKind::DomainRule,
            LibraryError::UserAlreadyExists => ErrorKind::Conflict,
            LibraryError::GenreAlreadyExists => ErrorKind::Conflict,
            LibraryError::InvalidDate => ErrorKind::Validation,
            LibraryError::NoSearchCriteria => ErrorKind::NoCriteria,
        }
    }

    /// The text that reports this failure to a client.
    pub fn message(&self) -> (r: &'static str)
        ensures
            r@ == message_of(*self),
    {
        proof {
            reveal_strlit("Invalid identifier");
            reveal_strlit("Not found");
            reveal_strlit("Book not available");
            reveal_strlit("Book not borrowed");
            reveal_strlit("User already exist");
            reveal_strlit("Genre already exist");
            reveal_strlit("Invalid date format");
            reveal_strlit("No search criteria provided");
        }
        match self {
            LibraryError::InvalidId => "Invalid identifier",
            LibraryError::NotFound => "Not found",
            LibraryError::BookNotAvailable => "Book not available",
            LibraryError::BookNotBorrowed => "Book not borrowed",
            LibraryError::UserAlreadyExists => "User already exist",
            LibraryError::GenreAlreadyExists => "Genre already exist",
            LibraryError::InvalidDate => "Invalid date format",
            LibraryError::NoSearchCriteria => "No search criteria provided",
        }
    }
}

} // verus!
