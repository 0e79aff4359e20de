//! Books: creation, partial updates, search filters, lending and returning.
use vstd::prelude::*;
use crate::error::LibraryError;
use crate::user::{User, UserView};
use crate::value::{
    Value, ValueView, bool_of, entries_view, entry_if, int_of, push_bool, push_int, push_text,
    text_of, texts_view,
};

verus! {

/// A book of the catalog, without its store identifier.
#[derive(Clone, Debug)]
pub struct Book {
    pub title: String,
    pub author: String,
    pub year: i32,
    pub resume: String,
    /// False exactly while the book is lent to a user.
    pub availability: bool,
    /// The identifier of the book's genre, or [`NO_GENRE`].
    pub gender_id: String,
}

pub struct BookView {
    pub title: Seq<char>,
    pub author: Seq<char>,
    pub year: i32,
    pub resume: Seq<char>,
    pub availability: bool,
    pub gender_id: Seq<char>,
}

impl View for Book {
    type V = BookView;

    open spec fn view(&self) -> BookView {
        BookView {
            title: self.title@,
            author: self.author@,
            year: self.year,
            resume: self.resume@,
            availability: self.availability,
            gender_id: self.gender_id@,
        }
    }
}

/// Search criteria: each present field must match exactly.
#[derive(Clone, Debug)]
pub struct SearchBook {
    pub title: Option<String>,
    pub author: Option<String>,
    pub year: Option<i32>,
}

/// A partial update: each present field replaces the stored one.
#[derive(Clone, Debug)]
pub struct UpdateBook {
    pub title: Option<String>,
    pub author: Option<String>,
    pub year: Option<i32>,
    pub resume: Option<String>,
    pub availability: Option<bool>,
    pub gender_id: Option<String>,
}

/// What a client sends to add a book.
#[derive(Clone, Debug)]
pub struct NewBook {
    pub title: String,
    pub author: String,
    pub year: i32,
    pub resume: String,
}

/// A stored book together with the text form of its store identifier.
#[derive(Clone, Debug)]
pub struct BookRecord {
    pub id: String,
    pub book: Book,
}

/// The genre identifier of a book that has no genre.
pub const NO_GENRE: &'static str = "000000000000000000000000";

/// The stored fields of a book.
#[derive(Clone, Copy, Debug, PartialEq, Eq, Structural)]
pub enum BookField {
    Title,
    Author,
    Year,
    Resume,
    Availability,
    GenderId,
}

pub open spec fn book_field_name(f: BookField) -> Seq<char> {
    match f {
        BookField::Title => "title"@,
        BookField::Author => "author"@,
        BookField::Year => "year"@,
        BookField::Resume => "resume"@,
        BookField::Availability => "availability"@,
        BookField::GenderId => "gender_id"@,
    }
}

impl BookField {
    /// The field's key in a stored document.
    pub fn name(&self) -> (r: &'static str)
        ensures
            r@ == book_field_name(*self),
    {
        proof {
            reveal_strlit("title");
            reveal_strlit("author");
            reveal_strlit("year");
            reveal_strlit("resume");
            reveal_strlit("availability");
            reveal_strlit("gender_id");
        }
        match self {
            BookField::Title => "title",
            BookField::Author => "author",
            BookField::Year => "year",
            BookField::Resume => "resume",
            BookField::Availability => "availability",
            BookField::GenderId => "gender_id",
        }
    }
}

pub open spec fn no_genre() -> Seq<char> {
    NO_GENRE@
}

/// The book that adding `n` creates: available, without a genre.
pub open spec fn book_from_new(n: NewBook) -> BookView {
    BookView {
        title: n.title@,
        author: n.author@,
        year: n.year,
        resume: n.resume@,
        availability: true,
        gender_id: no_genre(),
    }
}

impl Book {
    /// The book that adding `value` creates.
    pub fn from(value: NewBook) -> (r: Book)
        ensures
            r@ == book_from_new(value),
    {
        Book {
            title: value.title,
            author: value.author,
            year: value.year,
            resume: value.resume,
            availability: true,
            gender_id: NO_GENRE.to_owned(),
        }
    }
}

impl Book {
    /// A copy of this book.
    pub fn duplicate(&self) -> (r: Book)
        ensures
            r@ == self@,
    {
        Book {
            title: self.title.clone(),
            author: self.author.clone(),
            year: self.year,
            resume: self.resume.clone(),
            availability: self.availability,
            gender_id: self.gender_id.clone(),
        }
    }
}

pub open spec fn book_update_is_empty(u: UpdateBook) -> bool {
    u.title.is_none() && u.author.is_none() && u.year.is_none() && u.resume.is_none()
        && u.availability.is_none() && u.gender_id.is_none()
}

pub open spec fn book_update_entries(u: UpdateBook) -> Seq<(BookField, ValueView)> {
    entry_if(BookField::Title, text_of(u.title))
        + entry_if(BookField::Author, text_of(u.author))
        + entry_if(BookField::Year, int_of(u.year))
        + entry_if(BookField::Resume, text_of(u.resume))
        + entry_if(BookField::GenderId, text_of(u.gender_id))
        + entry_if(BookField::Availability, bool_of(u.availability))
}

/// The fields that a partial update of a book sets, one pair per present
/// field. `None` when no field is present: the stored book is then left as it
/// is and no write is made.
pub fn update_book(update: &UpdateBook) -> (r: Option<Vec<(BookField, Value)>>)
    ensures
        r.is_none() <==> book_update_is_empty(*update),
        r matches Some(v) ==> entries_view(v@) == book_update_entries(*update),
{
    if update.title.is_none() && update.author.is_none() && update.year.is_none()
        && update.resume.is_none() && update.availability.is_none() && update.gender_id.is_none() {
        return None;
    }
    let mut entries: Vec<(BookField, Value)> = Vec::new();
    assert(entries_view(entries@) =~= Seq::empty());
    push_text(&mut entries, BookField::Title, &update.title);
    push_text(&mut entries, BookField::Author, &update.author);
    push_int(&mut entries, BookField::Year, update.year);
    push_text(&mut entries, BookField::Resume, &update.resume);
    push_text(&mut entries, BookField::GenderId, &update.gender_id);
    push_bool(&mut entries, BookField::Availability, update.availability);
    assert(entries_view(entries@) =~= book_update_entries(*update));
    Some(entries)
}

/// The value that `u` gives to field `f`, if any.
pub open spec fn book_update_value(u: UpdateBook, f: BookField) -> Option<ValueView> {
    match f {
        BookField::Title => text_of(u.title),
        BookField::Author => text_of(u.author),
        BookField::Year => int_of(u.year),
        BookField::Resume => text_of(u.resume),
        BookField::Availability => bool_of(u.availability),
        BookField::GenderId => text_of(u.gender_id),
    }
}

/// A partial update of a book sets a field exactly when the update holds a
/// value for it, to that value, and names each field at most once.
pub proof fn lemma_book_update_fields(u: UpdateBook)
    ensures
        forall|i: int|
            0 <= i < book_update_entries(u).len() ==> book_update_value(u, #[trigger] book_update_entries(u)[i].0)
                == Some(book_update_entries(u)[i].1),
        forall|f: BookField|
            (#[trigger] book_update_value(u, f)).is_some() ==> exists|i: int|
                0 <= i < book_update_entries(u).len() && book_update_entries(u)[i].0 == f,
        forall|i: int, j: int|
            0 <= i < j < book_update_entries(u).len() ==> book_update_entries(u)[i].0
                != book_update_entries(u)[j].0,
{
    let e = book_update_entries(u);
    let a = entry_if(BookField::Title, text_of(u.title));
    let b = entry_if(BookField::Author, text_of(u.author));
    let c = entry_if(BookField::Year, int_of(u.year));
    let d = entry_if(BookField::Resume, text_of(u.resume));
    let g = entry_if(BookField::GenderId, text_of(u.gender_id));
    let h = entry_if(BookField::Availability, bool_of(u.availability));
    assert(e == a + b + c + d + g + h);
    assert forall|f: BookField| (#[trigger] book_update_value(u, f)).is_some() implies exists|i: int|
        0 <= i < e.len() && e[i].0 == f by {
        let k: int = match f {
            BookField::Title => 0,
            BookField::Author => a.len() as int,
            BookField::Year => (a + b).len() as int,
            BookField::Resume => (a + b + c).len() as int,
            BookField::GenderId => (a + b + c + d).len() as int,
            BookField::Availability => (a + b + c + d + g).len() as int,
        };
        assert(e[k].0 == f);
    }
}

pub open spec fn book_search_is_empty(s: SearchBook) -> bool {
    s.title.is_none() && s.author.is_none() && s.year.is_none()
}

pub open spec fn book_search_entries(s: SearchBook) -> Seq<(BookField, ValueView)> {
    entry_if(BookField::Title, text_of(s.title))
        + entry_if(BookField::Author, text_of(s.author))
        + entry_if(BookField::Year, int_of(s.year))
}

/// The equality filter of a book search, one pair per present criterion.
/// `None` when no criterion is present: the answer is then the empty list,
/// and the store is not asked.
pub fn search_book(search: &SearchBook) -> (r: Option<Vec<(BookField, Value)>>)
    ensures
        r.is_none() <==> book_search_is_empty(*search),
        r matches Some(v) ==> entries_view(v@) == book_search_entries(*search),
{
    if search.title.is_none() && search.author.is_none() && search.year.is_none() {
        return None;
    }
    let mut entries: Vec<(BookField, Value)> = Vec::new();
    assert(entries_view(entries@) =~= Seq::empty());
    push_text(&mut entries, BookField::Title, &search.title);
    push_text(&mut entries, BookField::Author, &search.author);
    push_int(&mut entries, BookField::Year, search.year);
    assert(entries_view(entries@) =~= book_search_entries(*search));
    Some(entries)
}

/// `b` with its availability set to `a`.
pub open spec fn with_availability(b: BookView, a: bool) -> BookView {
    BookView { availability: a, ..b }
}

/// `u` with its list of borrowed books replaced by `l`.
pub open spec fn with_borrowed(u: UserView, l: Seq<Seq<char>>) -> UserView {
    UserView { borrowed_books: l, ..u }
}

/// The list of borrowed books once `id` is lent: `id` comes last.
pub open spec fn list_after_borrow(l: Seq<Seq<char>>, id: Seq<char>) -> Seq<Seq<char>> {
    l.push(id)
}

/// The list of borrowed books once `id` is returned: every copy of `id` is gone.
pub open spec fn list_after_return(l: Seq<Seq<char>>, id: Seq<char>) -> Seq<Seq<char>> {
    l.filter(other_than(id))
}

/// Holds of every identifier but `id`.
pub open spec fn other_than(id: Seq<char>) -> spec_fn(Seq<char>) -> bool {
    |x: Seq<char>| x != id
}

/// Once returned, a book is in no copy on the list, and every other entry
/// stays, in its order.
pub proof fn lemma_return_removes_all(l: Seq<Seq<char>>, id: Seq<char>)
    ensures
        !list_after_return(l, id).contains(id),
        forall|x: Seq<char>| x != id ==> (l.contains(x) <==> list_after_return(l, id).contains(x)),
{
    let pred = other_than(id);
    if list_after_return(l, id).contains(id) {
        let k = choose|k: int| 0 <= k < l.filter(pred).len() && l.filter(pred)[k] == id;
        l.lemma_filter_pred(pred, k);
    }
    assert forall|x: Seq<char>| x != id implies (l.contains(x) <==> list_after_return(l, id).contains(x)) by {
        if list_after_return(l, id).contains(x) {
            l.lemma_filter_contains_rev(pred, x);
        }
        if l.contains(x) {
            let k = choose|k: int| 0 <= k < l.len() && l[k] == x;
            l.lemma_filter_contains(pred, k);
        }
    }
}

/// Returning a book undoes lending it, for a user who did not hold it before.
pub proof fn lemma_return_undoes_borrow(l: Seq<Seq<char>>, id: Seq<char>)
    requires
        !l.contains(id),
    ensures
        list_after_return(list_after_borrow(l, id), id) == l,
{
    let pred = other_than(id);
    l.lemma_filter_push(id, pred);
    lemma_filter_keeps_all(l, id);
    assert(l.push(id).filter(pred) == l.filter(pred));
}

proof fn lemma_filter_keeps_all(l: Seq<Seq<char>>, id: Seq<char>)
    requires
        !l.contains(id),
    ensures
        list_after_return(l, id) == l,
    decreases l.len(),
{
    let pred = other_than(id);
    if l.len() > 0 {
        let init = l.drop_last();
        assert(init.push(l.last()) =~= l);
        assert(!init.contains(id)) by {
            if init.contains(id) {
                let k = choose|k: int| 0 <= k < init.len() && init[k] == id;
                assert(l[k] == id);
            }
        }
        assert(l[l.len() - 1] == l.last());
        lemma_filter_keeps_all(init, id);
        init.lemma_filter_push(l.last(), pred);
        assert(l.filter(pred) == init.filter(pred).push(l.last()));
    } else {
        reveal(Seq::filter);
        assert(l.filter(pred) =~= l);
    }
}

/// Lends `book`, whose identifier is `book_id`, to `user`. Refused, with both
/// left as they were, when the book is already lent.
pub fn lend(book: &mut Book, user: &mut User, book_id: &str) -> (r: Result<(), LibraryError>)
    ensures
        r.is_ok() <==> old(book).availability,
        r matches Err(e) ==> e == LibraryError::BookNotAvailable && *final(book) == *old(book)
            && *final(user) == *old(user),
        r.is_ok() ==> final(book)@ == with_availability(old(book)@, false) && final(user)@
            == with_borrowed(old(user)@, list_after_borrow(old(user)@.borrowed_books, book_id@)),
{
    if !book.availability {
        return Err(LibraryError::BookNotAvailable);
    }
    book.availability = false;
    let ghost before = user.borrowed_books@;
    user.borrowed_books.push(book_id.to_owned());
    assert(texts_view(user.borrowed_books@) =~= texts_view(before).push(book_id@));
    Ok(())
}

/// The identifiers in `list` other than `id`, in their order.
pub fn without_id(list: &Vec<String>, id: &str) -> (r: Vec<String>)
    ensures
        texts_view(r@) == list_after_return(texts_view(list@), id@),
{
    let target = id.to_owned();
    let mut r: Vec<String> = Vec::new();
    let mut i: usize = 0;
    while i < list.len()
        invariant
            i <= list.len(),
            target@ == id@,
            texts_view(r@) == list_after_return(texts_view(list@.subrange(0, i as int)), id@),
        decreases list.len() - i,
    {
        let ghost before = r@;
        let ghost prefix = texts_view(list@.subrange(0, i as int));
        assert(texts_view(list@.subrange(0, i + 1)) =~= prefix.push(list@[i as int]@));
        proof {
            let pred = other_than(id@);
            prefix.lemma_filter_push(list@[i as int]@, pred);
        }
        if list[i] != target {
            let c = list[i].clone();
            r.push(c);
            assert(texts_view(r@) =~= texts_view(before).push(c@));
        } else {
            assert(r@ == before);
        }
        i = i + 1;
    }
    assert(list@.subrange(0, i as int) =~= list@);
    r
}

/// Takes `book`, whose identifier is `book_id`, back from `user`. Refused,
/// with both left as they were, when the book is not lent.
pub fn take_back(book: &mut Book, user: &mut User, book_id: &str) -> (r: Result<(), LibraryError>)
    ensures
        r.is_ok() <==> !old(book).availability,
        r matches Err(e) ==> e == LibraryError::BookNotBorrowed && *final(book) == *old(book)
            && *final(user) == *old(user),
        r.is_ok() ==> final(book)@ == with_availability(old(book)@, true) && final(user)@
            == with_borrowed(old(user)@, list_after_return(old(user)@.borrowed_books, book_id@)),
{
    if book.availability {
        return Err(LibraryError::BookNotBorrowed);
    }
    book.availability = true;
    user.borrowed_books = without_id(&user.borrowed_books, book_id);
    Ok(())
}

/// Lends the book `book_id` to a user, given the book and the user as the
/// store returned them (`None`: not found). On success the changed pair is
/// returned, to be written back.
pub fn borrow_book(book_id: &str, book: Option<Book>, user: Option<User>) -> (r: Result<
    (User, Book),
    LibraryError,
>)
    ensures
        (book.is_none() || user.is_none()) ==> r == Err::<(User, Book), _>(LibraryError::NotFound),
        book.is_some() && user.is_some() ==> (r.is_ok() <==> book.unwrap().availability),
        book.is_some() && user.is_some() && !book.unwrap().availability ==> r == Err::<
            (User, Book),
            _,
        >(LibraryError::BookNotAvailable),
        r matches Ok(p) ==> p.1@ == with_availability(book.unwrap()@, false) && p.0@
            == with_borrowed(
            user.unwrap()@,
            list_after_borrow(user.unwrap()@.borrowed_books, book_id@),
        ),
{
    match (book, user) {
        (Some(b), Some(u)) => {
            let mut b = b;
            let mut u = u;
            match lend(&mut b, &mut u, book_id) {
                Ok(()) => Ok((u, b)),
                Err(e) => Err(e),
            }
        },
        _ => Err(LibraryError::NotFound),
    }
}

/// Takes the book `book_id` back from a user, given the book and the user as
/// the store returned them (`None`: not found). On success the changed pair is
/// returned, to be written back.
pub fn return_book(book_id: &str, book: Option<Book>, user: Option<User>) -> (r: Result<
    (User, Book),
    LibraryError,
>)
    ensures
        (book.is_none() || user.is_none()) ==> r == Err::<(User, Book), _>(LibraryError::NotFound),
        book.is_some() && user.is_some() ==> (r.is_ok() <==> !book.unwrap().availability),
        book.is_some() && user.is_some() && book.unwrap().availability ==> r == Err::<
            (User, Book),
            _,
        >(LibraryError::BookNotBorrowed),
        r matches Ok(p) ==> p.1@ == with_availability(book.unwrap()@, true) && p.0@
            == with_borrowed(
            user.unwrap()@,
            list_after_return(user.unwrap()@.borrowed_books, book_id@),
        ),
{
    match (book, user) {
        (Some(b), Some(u)) => {
            let mut b = b;
            let mut u = u;
            match take_back(&mut b, &mut u, book_id) {
                Ok(()) => Ok((u, b)),
                Err(e) => Err(e),
            }
        },
        _ => Err(LibraryError::NotFound),
    }
}

} // verus!
