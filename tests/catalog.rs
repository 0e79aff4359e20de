use bibliotheca::book::{
    borrow_book, return_book, search_book, update_book, Book, BookField, BookRecord, NewBook,
    SearchBook, UpdateBook, NO_GENRE,
};
use bibliotheca::comment::{
    get_all_books_by_operator_rating, calculate_rating_by_book_id, Comment, NewComment, OperatorRating, Ratio,
    SearchByRating,
};
use bibliotheca::config::BuildConfig;
use bibliotheca::error::{ErrorKind, LibraryError};
use bibliotheca::genre::{create_genre, get_books_by_genre, Genre, GenreRecord};
use bibliotheca::ident::parse_id;
use bibliotheca::user::{
    create_user, search_user, update_user, NewUser, SearchUser, UpdateUser, User, UserField,
};
use bibliotheca::value::Value;

const G1: &str = "64b7f0c2a1b2c3d4e5f60718";
const B1: &str = "64b7f0c2a1b2c3d4e5f60719";
const B2: &str = "64b7f0c2a1b2c3d4e5f6071a";

fn book(title: &str, gender_id: &str) -> Book {
    Book {
        title: title.to_string(),
        author: "Author".to_string(),
        year: 1999,
        resume: "Resume".to_string(),
        availability: true,
        gender_id: gender_id.to_string(),
    }
}

fn user() -> User {
    User::from(NewUser {
        first_name: "Ada".to_string(),
        last_name: "Lovelace".to_string(),
        email: "ada@example.org".to_string(),
        birth_date: "1815-12-10".to_string(),
    })
}

fn comment(book_id: &str, rating: i32) -> Comment {
    Comment::from(NewComment {
        user_id: "u".to_string(),
        book_id: book_id.to_string(),
        comment: "c".to_string(),
        rating,
    })
}

fn whole(n: i64) -> Ratio {
    Ratio { numerator: n, denominator: 1 }
}

fn empty_book_update() -> UpdateBook {
    UpdateBook { title: None, author: None, year: None, resume: None, availability: None, gender_id: None }
}

#[test]
fn new_book_is_available_without_genre() {
    let b = Book::from(NewBook {
        title: "T".to_string(),
        author: "A".to_string(),
        year: 2001,
        resume: "R".to_string(),
    });
    assert!(b.availability);
    assert_eq!(b.gender_id, "000000000000000000000000");
    assert_eq!(b.gender_id, NO_GENRE);
    assert_eq!(b.year, 2001);
}

#[test]
fn new_user_has_default_role_and_no_books() {
    let u = user();
    assert_eq!(u.role, "user");
    assert!(u.borrowed_books.is_empty());
    assert_eq!(u.email, "ada@example.org");
}

#[test]
fn book_update_without_fields_is_no_op() {
    assert!(update_book(&empty_book_update()).is_none());
}

#[test]
fn book_update_lists_exactly_present_fields() {
    let mut u = empty_book_update();
    u.title = Some("New".to_string());
    u.year = Some(2020);
    u.availability = Some(false);
    let e = update_book(&u).unwrap();
    assert_eq!(e.len(), 3);
    assert_eq!(e[0].0, BookField::Title);
    assert!(matches!(&e[0].1, Value::Text(t) if t == "New"));
    assert_eq!(e[1].0, BookField::Year);
    assert!(matches!(e[1].1, Value::Int(2020)));
    assert_eq!(e[2].0, BookField::Availability);
    assert!(matches!(e[2].1, Value::Bool(false)));
}

#[test]
fn book_update_with_every_field() {
    let u = UpdateBook {
        title: Some("a".to_string()),
        author: Some("b".to_string()),
        year: Some(1),
        resume: Some("c".to_string()),
        availability: Some(true),
        gender_id: Some(G1.to_string()),
    };
    let e = update_book(&u).unwrap();
    let fields: Vec<BookField> = e.iter().map(|p| p.0).collect();
    assert_eq!(
        fields,
        vec![
            BookField::Title,
            BookField::Author,
            BookField::Year,
            BookField::Resume,
            BookField::GenderId,
            BookField::Availability
        ]
    );
}

#[test]
fn user_update_without_fields_is_empty() {
    let u = UpdateUser {
        first_name: None,
        last_name: None,
        email: None,
        birth_date: None,
        borrowed_books: None,
        role: None,
    };
    assert!(update_user(&u).is_empty());
}

#[test]
fn user_update_keeps_whole_borrowed_list() {
    let u = UpdateUser {
        first_name: None,
        last_name: Some("L".to_string()),
        email: None,
        birth_date: None,
        borrowed_books: Some(vec![B1.to_string(), B2.to_string()]),
        role: None,
    };
    let e = update_user(&u);
    assert_eq!(e.len(), 2);
    assert_eq!(e[0].0, UserField::LastName);
    assert_eq!(e[1].0, UserField::BorrowedBooks);
    match &e[1].1 {
        Value::TextList(l) => assert_eq!(l, &vec![B1.to_string(), B2.to_string()]),
        _ => panic!("expected a list"),
    }
}

#[test]
fn book_search_without_criteria_is_empty() {
    let s = SearchBook { title: None, author: None, year: None };
    assert!(search_book(&s).is_none());
}

#[test]
fn book_search_filters_present_fields() {
    let s = SearchBook { title: None, author: Some("Author".to_string()), year: Some(1999) };
    let e = search_book(&s).unwrap();
    assert_eq!(e.len(), 2);
    assert_eq!(e[0].0, BookField::Author);
    assert!(matches!(&e[0].1, Value::Text(t) if t == "Author"));
    assert_eq!(e[1].0, BookField::Year);
    assert!(matches!(e[1].1, Value::Int(1999)));
}

#[test]
fn user_search_without_criteria_fails() {
    let s = SearchUser { first_name: None, last_name: None, email: None };
    let e = search_user(&s).unwrap_err();
    assert_eq!(e, LibraryError::NoSearchCriteria);
    assert_eq!(e.kind(), ErrorKind::NoCriteria);
    assert_eq!(e.message(), "No search criteria provided");
}

#[test]
fn user_search_filters_email() {
    let s = SearchUser { first_name: None, last_name: None, email: Some("x@y.z".to_string()) };
    let e = search_user(&s).unwrap();
    assert_eq!(e.len(), 1);
    assert_eq!(e[0].0, UserField::Email);
    assert_eq!(e[0].0.name(), "email");
}

#[test]
fn borrow_then_return_scenario() {
    let (u, b) = borrow_book(B1, Some(book("B", NO_GENRE)), Some(user())).unwrap();
    assert!(!b.availability);
    assert_eq!(u.borrowed_books, vec![B1.to_string()]);
    let again = borrow_book(B1, Some(b.clone()), Some(u.clone())).unwrap_err();
    assert_eq!(again, LibraryError::BookNotAvailable);
    assert_eq!(again.message(), "Book not available");
    assert_eq!(again.kind(), ErrorKind::DomainRule);
    let (u2, b2) = return_book(B1, Some(b), Some(u)).unwrap();
    assert!(b2.availability);
    assert!(u2.borrowed_books.is_empty());
}

#[test]
fn return_of_available_book_fails() {
    let e = return_book(B1, Some(book("B", NO_GENRE)), Some(user())).unwrap_err();
    assert_eq!(e, LibraryError::BookNotBorrowed);
    assert_eq!(e.message(), "Book not borrowed");
}

#[test]
fn return_removes_every_copy() {
    let mut u = user();
    u.borrowed_books = vec![B1.to_string(), B2.to_string(), B1.to_string()];
    let mut b = book("B", NO_GENRE);
    b.availability = false;
    let (u2, b2) = return_book(B1, Some(b), Some(u)).unwrap();
    assert!(b2.availability);
    assert_eq!(u2.borrowed_books, vec![B2.to_string()]);
}

#[test]
fn borrow_of_missing_record_is_not_found() {
    assert_eq!(borrow_book(B1, None, Some(user())).unwrap_err(), LibraryError::NotFound);
    assert_eq!(return_book(B1, Some(book("B", NO_GENRE)), None).unwrap_err(), LibraryError::NotFound);
    assert_eq!(LibraryError::NotFound.kind().status(), 404);
}

#[test]
fn genre_join_scenario() {
    let genres = vec![GenreRecord { id: G1.to_string(), genre: Genre { name: "Fiction".to_string() } }];
    let books = vec![book("Dune", G1), book("Other", NO_GENRE)];
    let r = get_books_by_genre("Fiction", &genres, &books);
    assert_eq!(r.len(), 1);
    assert_eq!(r[0].title, "Dune");
    assert_eq!(r[0].gender_id, "Fiction");
}

#[test]
fn unknown_genre_yields_nothing() {
    let genres = vec![GenreRecord { id: G1.to_string(), genre: Genre { name: "Fiction".to_string() } }];
    let books = vec![book("Dune", G1)];
    assert!(get_books_by_genre("fiction", &genres, &books).is_empty());
    assert!(get_books_by_genre("Poetry", &genres, &books).is_empty());
}

#[test]
fn duplicate_genre_is_refused() {
    let e = create_genre(Genre { name: "Fiction".to_string() }, true).unwrap_err();
    assert_eq!(e, LibraryError::GenreAlreadyExists);
    assert_eq!(e.kind().status(), 409);
    let g = create_genre(Genre { name: "Poetry".to_string() }, false).unwrap();
    assert_eq!(g.name, "Poetry");
}

fn rated_catalog() -> (Vec<BookRecord>, Vec<Comment>) {
    let books = vec![
        BookRecord { id: B1.to_string(), book: book("Rated", NO_GENRE) },
        BookRecord { id: B2.to_string(), book: book("Unrated", NO_GENRE) },
    ];
    let comments = vec![comment(B1, 2), comment(B1, 4), comment("elsewhere", 9), comment(B1, 6)];
    (books, comments)
}

#[test]
fn average_of_two_four_six_is_four() {
    let (_, comments) = rated_catalog();
    let s = calculate_rating_by_book_id(B1, &comments).unwrap();
    assert_eq!(s.sum, 12);
    assert_eq!(s.count, 3);
    assert!(calculate_rating_by_book_id(B2, &comments).is_none());
}

#[test]
fn rating_filter_threshold_four_and_five() {
    let (books, comments) = rated_catalog();
    let r = get_all_books_by_operator_rating(OperatorRating::GreaterOrEqual(whole(4)), &books, &comments);
    assert_eq!(r.len(), 1);
    assert_eq!(r[0].title, "Rated");
    let r = get_all_books_by_operator_rating(OperatorRating::GreaterOrEqual(whole(5)), &books, &comments);
    assert!(r.is_empty());
    let r = get_all_books_by_operator_rating(OperatorRating::Equal(whole(4)), &books, &comments);
    assert_eq!(r.len(), 1);
    let half = Ratio { numerator: 7, denominator: 2 };
    let r = get_all_books_by_operator_rating(OperatorRating::Less(half), &books, &comments);
    assert!(r.is_empty());
}

#[test]
fn unrated_book_passes_not_equal_only() {
    let (books, comments) = rated_catalog();
    let r = get_all_books_by_operator_rating(OperatorRating::NotEqual(whole(4)), &books, &comments);
    assert_eq!(r.len(), 1);
    assert_eq!(r[0].title, "Unrated");
    let r = get_all_books_by_operator_rating(OperatorRating::LessOrEqual(whole(100)), &books, &comments);
    assert_eq!(r.len(), 1);
    assert_eq!(r[0].title, "Rated");
}

#[test]
fn operator_symbols() {
    let t = whole(3);
    let op = |s: &str| SearchByRating { operator: s.to_string(), rating: t }.operator_rating();
    assert_eq!(op("="), OperatorRating::Equal(t));
    assert_eq!(op("!="), OperatorRating::NotEqual(t));
    assert_eq!(op(">"), OperatorRating::Greater(t));
    assert_eq!(op(">="), OperatorRating::GreaterOrEqual(t));
    assert_eq!(op("<"), OperatorRating::Less(t));
    assert_eq!(op("<="), OperatorRating::LessOrEqual(t));
    assert_eq!(op("~"), OperatorRating::Equal(t));
}

#[test]
fn identifiers_parse_from_hex() {
    let b = parse_id("000102030405060708090aFF").unwrap();
    assert_eq!(b, [0, 1, 2, 3, 4, 5, 6, 7, 8, 9, 10, 255]);
    assert_eq!(parse_id("0001020304050607080910").unwrap_err(), LibraryError::InvalidId);
    assert_eq!(parse_id("zz0102030405060708090a0b").unwrap_err(), LibraryError::InvalidId);
    assert_eq!(LibraryError::InvalidId.kind(), ErrorKind::Validation);
}

#[test]
fn registration_checks_date_then_email() {
    let new = |d: &str| NewUser {
        first_name: "A".to_string(),
        last_name: "B".to_string(),
        email: "a@b.c".to_string(),
        birth_date: d.to_string(),
    };
    let u = create_user(new("1990-05-17"), false).unwrap();
    assert_eq!(u.birth_date, "1990-05-17");
    assert_eq!(u.role, "user");
    assert_eq!(create_user(new("1990-13-01"), false).unwrap_err(), LibraryError::InvalidDate);
    assert_eq!(create_user(new("17/05/1990"), true).unwrap_err(), LibraryError::InvalidDate);
    let e = create_user(new("1990-05-17"), true).unwrap_err();
    assert_eq!(e, LibraryError::UserAlreadyExists);
    assert_eq!(e.message(), "User already exist");
}

#[test]
fn field_names() {
    assert_eq!(BookField::GenderId.name(), "gender_id");
    assert_eq!(BookField::Availability.name(), "availability");
    assert_eq!(UserField::BorrowedBooks.name(), "borrowed_books");
}

#[test]
fn config_is_carried_over() {
    let c = BuildConfig {
        url: "mongodb://localhost".to_string(),
        db_name: "lib".to_string(),
        collection_name: "books".to_string(),
    }
    .build();
    assert_eq!(c.url, "mongodb://localhost");
    assert_eq!(c.db_name, "lib");
    assert_eq!(c.collection_name, "books");
}
