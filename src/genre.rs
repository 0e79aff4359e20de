//! Genres, and the books that carry one.
use vstd::prelude::*;
use crate::book::{Book, BookView};
use crate::error::LibraryError;

verus! {

/// A genre of the catalog, without its store identifier.
#[derive(Clone, Debug)]
pub struct Genre {
    pub name: String,
}

/// A stored genre together with the text form of its store identifier.
#[derive(Clone, Debug)]
pub struct GenreRecord {
    pub id: String,
    pub genre: Genre,
}

/// The outcome of adding `genre`, given whether its name is already taken.
pub fn create_genre(genre: Genre, name_in_use: bool) -> (r: Result<Genre, LibraryError>)
    ensures
        r.is_ok() <==> !name_in_use,
        r matches Ok(g) ==> g == genre,
        r matches Err(e) ==> e == LibraryError::GenreAlreadyExists,
{
    if name_in_use {
        Err(LibraryError::GenreAlreadyExists)
    } else {
        Ok(genre)
    }
}

/// `b` shown with the genre's name in place of the genre's identifier.
pub open spec fn with_genre_name(b: BookView, name: Seq<char>) -> BookView {
    BookView { gender_id: name, ..b }
}

/// The books of the genre with identifier `gid`, each shown with `name` as its genre.
pub open spec fn books_of_genre(books: Seq<BookView>, gid: Seq<char>, name: Seq<char>) -> Seq<
    BookView,
> {
    books.filter(of_genre(gid)).map_values(relabelled(name))
}

/// Holds of the books whose genre identifier is `gid`.
pub open spec fn of_genre(gid: Seq<char>) -> spec_fn(BookView) -> bool {
    |b: BookView| b.gender_id == gid
}

pub open spec fn relabelled(name: Seq<char>) -> spec_fn(BookView) -> BookView {
    |b: BookView| with_genre_name(b, name)
}

pub open spec fn books_view(books: Seq<Book>) -> Seq<BookView> {
    books.map_values(|b: Book| b@)
}

/// The books of every genre called `name`, genre after genre, each shown with
/// `name` as its genre.
pub open spec fn genre_join(name: Seq<char>, genres: Seq<GenreRecord>, books: Seq<BookView>) -> Seq<
    BookView,
>
    decreases genres.len(),
{
    if genres.len() == 0 {
        Seq::empty()
    } else {
        let g = genres.last();
        genre_join(name, genres.drop_last(), books) + if g.genre.name@ == name {
            books_of_genre(books, g.id@, name)
        } else {
            Seq::empty()
        }
    }
}

/// No genre is called `name`: the query yields no book.
pub proof fn lemma_unknown_genre_yields_nothing(
    name: Seq<char>,
    genres: Seq<GenreRecord>,
    books: Seq<BookView>,
)
    requires
        forall|i: int| 0 <= i < genres.len() ==> (#[trigger] genres[i]).genre.name@ != name,
    ensures
        genre_join(name, genres, books) == Seq::<BookView>::empty(),
    decreases genres.len(),
{
    if genres.len() > 0 {
        let init = genres.drop_last();
        assert forall|i: int| 0 <= i < init.len() implies (#[trigger] init[i]).genre.name@ != name by {
            assert(init[i] == genres[i]);
        }
        lemma_unknown_genre_yields_nothing(name, init, books);
        assert(genres.last() == genres[genres.len() - 1]);
        assert(genre_join(name, genres, books) =~= Seq::<BookView>::empty());
    }
}

/// Whether `gid` is the identifier of a genre called `name`.
pub open spec fn names_genre(name: Seq<char>, genres: Seq<GenreRecord>, gid: Seq<char>) -> bool {
    exists|i: int| 0 <= i < genres.len() && genres[i].genre.name@ == name && #[trigger] genres[i].id@ == gid
}

/// Whether `b` is one of `books`, of a genre called `name`, shown with `name` as its genre.
pub open spec fn joined_from(name: Seq<char>, genres: Seq<GenreRecord>, books: Seq<BookView>, b: BookView) -> bool {
    exists|j: int|
        0 <= j < books.len() && names_genre(name, genres, books[j].gender_id) && b == with_genre_name(
            #[trigger] books[j],
            name,
        )
}

proof fn lemma_genre_join_member_at(name: Seq<char>, genres: Seq<GenreRecord>, books: Seq<BookView>, k: int)
    requires
        0 <= k < genre_join(name, genres, books).len(),
    ensures
        joined_from(name, genres, books, genre_join(name, genres, books)[k]),
    decreases genres.len(),
{
    let init = genres.drop_last();
    let g = genres.last();
    let last = genres.len() - 1;
    assert(g == genres[last]);
    let head = genre_join(name, init, books);
    let all = genre_join(name, genres, books);
    if k < head.len() {
        assert(all[k] == head[k]);
        lemma_genre_join_member_at(name, init, books, k);
        let j = choose|j: int|
            0 <= j < books.len() && names_genre(name, init, books[j].gender_id) && head[k]
                == with_genre_name(#[trigger] books[j], name);
        let i = choose|i: int|
            0 <= i < init.len() && init[i].genre.name@ == name && #[trigger] init[i].id@
                == books[j].gender_id;
        assert(init[i] == genres[i]);
        assert(names_genre(name, genres, books[j].gender_id));
    } else {
        let f = books.filter(of_genre(g.id@));
        let k2 = k - head.len();
        assert(all[k] == with_genre_name(f[k2], name));
        books.lemma_filter_pred(of_genre(g.id@), k2);
        assert(f.contains(f[k2]));
        books.lemma_filter_contains_rev(of_genre(g.id@), f[k2]);
        let j = choose|j: int| 0 <= j < books.len() && books[j] == f[k2];
        assert(books[j].gender_id == genres[last].id@);
        assert(names_genre(name, genres, books[j].gender_id));
    }
}

/// Every book that the query for `name` yields is one of the stored books,
/// whose genre identifier is that of a genre called `name`, shown with
/// `name` as its genre.
pub proof fn lemma_genre_join_members(name: Seq<char>, genres: Seq<GenreRecord>, books: Seq<BookView>)
    ensures
        forall|k: int|
            0 <= k < genre_join(name, genres, books).len() ==> joined_from(
                name,
                genres,
                books,
                #[trigger] genre_join(name, genres, books)[k],
            ),
{
    assert forall|k: int| 0 <= k < genre_join(name, genres, books).len() implies joined_from(
        name,
        genres,
        books,
        #[trigger] genre_join(name, genres, books)[k],
    ) by {
        lemma_genre_join_member_at(name, genres, books, k);
    }
}

/// Appends to `out` the books whose genre is `gid`, relabelled with `name`.
fn append_books_of_genre(out: &mut Vec<Book>, books: &Vec<Book>, gid: &String, name: &String)
    ensures
        books_view(final(out)@) == books_view(old(out)@) + books_of_genre(
            books_view(books@),
            gid@,
            name@,
        ),
{
    let ghost start = books_view(out@);
    let mut i: usize = 0;
    while i < books.len()
        invariant
            i <= books.len(),
            books_view(out@) == start + books_of_genre(
                books_view(books@.subrange(0, i as int)),
                gid@,
                name@,
            ),
        decreases books.len() - i,
    {
        let ghost prefix = books_view(books@.subrange(0, i as int));
        let ghost before = out@;
        let ghost pred = of_genre(gid@);
        let ghost relabel = relabelled(name@);
        assert(books_view(books@.subrange(0, i + 1)) =~= prefix.push(books@[i as int]@));
        proof {
            prefix.lemma_filter_push(books@[i as int]@, pred);
        }
        if books[i].gender_id == *gid {
            let mut b = books[i].duplicate();
            b.gender_id = name.clone();
            out.push(b);
            assert(prefix.filter(pred).push(books@[i as int]@).map_values(relabel) =~= prefix.filter(
                pred,
            ).map_values(relabel).push(relabel(books@[i as int]@)));
            assert(books_view(out@) =~= books_view(before).push(b@));
        } else {
            assert(out@ == before);
        }
        i = i + 1;
    }
    assert(books@.subrange(0, i as int) =~= books@);
}

/// The books of the genre called `name` (exact, case-sensitive), each shown
/// with the genre's name in place of its identifier. Empty when no genre has
/// that name.
pub fn get_books_by_genre(name: &str, genres: &Vec<GenreRecord>, books: &Vec<Book>) -> (r: Vec<
    Book,
>)
    ensures
        books_view(r@) == genre_join(name@, genres@, books_view(books@)),
{
    let target = name.to_owned();
    let mut out: Vec<Book> = Vec::new();
    let mut i: usize = 0;
    assert(books_view(out@) =~= Seq::empty());
    while i < genres.len()
        invariant
            i <= genres.len(),
            target@ == name@,
            books_view(out@) == genre_join(name@, genres@.subrange(0, i as int), books_view(books@)),
        decreases genres.len() - i,
    {
        let g = &genres[i];
        assert(genres@.subrange(0, i + 1).drop_last() =~= genres@.subrange(0, i as int));
        if g.genre.name == target {
            append_books_of_genre(&mut out, books, &g.id, &target);
        } else {
            assert(books_view(out@) =~= genre_join(name@, genres@.subrange(0, i + 1), books_view(books@)));
        }
        i = i + 1;
    }
    assert(genres@.subrange(0, i as int) =~= genres@);
    out
}

} // verus!
