//! Reviews of books, and the books whose average rating passes a test.
use vstd::prelude::*;
use crate::book::{Book, BookRecord, BookView};
use crate::genre::books_view;

verus! {

/// A review: a user's comment on a book, with a rating.
#[derive(Clone, Debug)]
pub struct Comment {
    pub user_id: String,
    pub book_id: String,
    pub comment: String,
    pub rating: i32,
}

#[derive(Clone, Debug)]
pub struct UpdateComment {
    pub comment: Option<String>,
    pub rating: Option<i32>,
}

/// What a client sends to review a book.
#[derive(Clone, Debug)]
pub struct NewComment {
    pub user_id: String,
    pub book_id: String,
    pub comment: String,
    pub rating: i32,
}

impl Comment {
    /// The review that `value` creates.
    pub fn from(value: NewComment) -> (r: Comment)
        ensures
            r.user_id == value.user_id,
            r.book_id == value.book_id,
            r.comment == value.comment,
            r.rating == value.rating,
    {
        Comment {
            user_id: value.user_id,
            book_id: value.book_id,
            comment: value.comment,
            rating: value.rating,
        }
    }
}

/// An exact rating threshold: `numerator / denominator`.
#[derive(Clone, Copy, Debug, PartialEq, Eq, Structural)]
pub struct Ratio {
    pub numerator: i64,
    pub denominator: u32,
}

impl Ratio {
    pub open spec fn wf(&self) -> bool {
        self.denominator > 0
    }
}

/// A comparison of a book's average rating with a threshold.
#[derive(Clone, Copy, Debug, PartialEq, Eq, Structural)]
pub enum OperatorRating {
    Equal(Ratio),
    NotEqual(Ratio),
    Greater(Ratio),
    GreaterOrEqual(Ratio),
    Less(Ratio),
    LessOrEqual(Ratio),
}

impl OperatorRating {
    pub open spec fn threshold(&self) -> Ratio {
        match *self {
            OperatorRating::Equal(t) => t,
            OperatorRating::NotEqual(t) => t,
            OperatorRating::Greater(t) => t,
            OperatorRating::GreaterOrEqual(t) => t,
            OperatorRating::Less(t) => t,
            OperatorRating::LessOrEqual(t) => t,
        }
    }
}

/// The request of a rating search: an operator symbol and a threshold.
#[derive(Clone, Debug)]
pub struct SearchByRating {
    pub operator: String,
    pub rating: Ratio,
}

/// The comparison that `symbol` names: one of `=`, `!=`, `>`, `>=`, `<`,
/// `<=`; any other text stands for `=`.
pub open spec fn operator_of(symbol: Seq<char>, t: Ratio) -> OperatorRating {
    if symbol == "!="@ {
        OperatorRating::NotEqual(t)
    } else if symbol == ">"@ {
        OperatorRating::Greater(t)
    } else if symbol == ">="@ {
        OperatorRating::GreaterOrEqual(t)
    } else if symbol == "<"@ {
        OperatorRating::Less(t)
    } else if symbol == "<="@ {
        OperatorRating::LessOrEqual(t)
    } else {
        OperatorRating::Equal(t)
    }
}

impl SearchByRating {
    /// The comparison this request asks for.
    pub fn operator_rating(&self) -> (r: OperatorRating)
        ensures
            r == operator_of(self.operator@, self.rating),
    {
        let t = self.rating;
        if self.operator == "!=".to_owned() {
            OperatorRating::NotEqual(t)
        } else if self.operator == ">".to_owned() {
            OperatorRating::Greater(t)
        } else if self.operator == ">=".to_owned() {
            OperatorRating::GreaterOrEqual(t)
        } else if self.operator == "<".to_owned() {
            OperatorRating::Less(t)
        } else if self.operator == "<=".to_owned() {
            OperatorRating::LessOrEqual(t)
        } else {
            OperatorRating::Equal(t)
        }
    }
}

/// The ratings of the reviews of the book with identifier `id`, in order.
pub open spec fn ratings_of(comments: Seq<Comment>, id: Seq<char>) -> Seq<int>
    decreases comments.len(),
{
    if comments.len() == 0 {
        Seq::empty()
    } else {
        let c = comments.last();
        ratings_of(comments.drop_last(), id) + if c.book_id@ == id {
            seq![c.rating as int]
        } else {
            Seq::empty()
        }
    }
}

pub open spec fn sum_of(s: Seq<int>) -> int
    decreases s.len(),
{
    if s.len() == 0 {
        0
    } else {
        sum_of(s.drop_last()) + s.last()
    }
}

/// The sum and the number of a book's ratings.
#[derive(Clone, Copy, Debug, PartialEq, Eq, Structural)]
pub struct RatingSummary {
    pub sum: i128,
    pub count: u64,
}

/// Whether the average `sum / count` compares with `t` as `op` asks. A book
/// without ratings has no average: it passes `!=` only, as a missing value
/// does in the store's comparisons.
pub open spec fn average_passes(op: OperatorRating, sum: int, count: int) -> bool {
    let t = op.threshold();
    let lhs = sum * t.denominator;
    let rhs = t.numerator * count;
    if count == 0 {
        op is NotEqual
    } else {
        match op {
            OperatorRating::Equal(_) => lhs == rhs,
            OperatorRating::NotEqual(_) => lhs != rhs,
            OperatorRating::Greater(_) => lhs > rhs,
            OperatorRating::GreaterOrEqual(_) => lhs >= rhs,
            OperatorRating::Less(_) => lhs < rhs,
            OperatorRating::LessOrEqual(_) => lhs <= rhs,
        }
    }
}

/// The sum and the number of the ratings of the book `book_id`.
pub fn summarize_ratings(book_id: &str, comments: &Vec<Comment>) -> (r: RatingSummary)
    ensures
        r.sum == sum_of(ratings_of(comments@, book_id@)),
        r.count == ratings_of(comments@, book_id@).len(),
        -0x8000_0000 * r.count <= r.sum <= 0x7fff_ffff * r.count,
{
    let target = book_id.to_owned();
    let mut sum: i128 = 0;
    let mut count: u64 = 0;
    let mut i: usize = 0;
    while i < comments.len()
        invariant
            i <= comments.len(),
            target@ == book_id@,
            count <= i,
            sum == sum_of(ratings_of(comments@.subrange(0, i as int), book_id@)),
            count == ratings_of(comments@.subrange(0, i as int), book_id@).len(),
            -0x8000_0000 * count <= sum <= 0x7fff_ffff * count,
        decreases comments.len() - i,
    {
        let c = &comments[i];
        let ghost prev = ratings_of(comments@.subrange(0, i as int), book_id@);
        assert(comments@.subrange(0, i + 1).drop_last() =~= comments@.subrange(0, i as int));
        if c.book_id == target {
            sum = sum + c.rating as i128;
            count = count + 1;
            let ghost next = prev + seq![c.rating as int];
            assert(next.drop_last() =~= prev);
        } else {
            assert(prev + Seq::<int>::empty() =~= prev);
        }
        i = i + 1;
    }
    assert(comments@.subrange(0, i as int) =~= comments@);
    RatingSummary { sum, count }
}

/// The ratings of the book `book_id`; `None` when it has none, since an
/// average of no ratings does not exist.
pub fn calculate_rating_by_book_id(book_id: &str, comments: &Vec<Comment>) -> (r: Option<RatingSummary>)
    ensures
        r.is_none() <==> ratings_of(comments@, book_id@).len() == 0,
        r matches Some(s) ==> s.sum == sum_of(ratings_of(comments@, book_id@)) && s.count
            == ratings_of(comments@, book_id@).len(),
{
    let s = summarize_ratings(book_id, comments);
    if s.count == 0 {
        None
    } else {
        Some(s)
    }
}

impl OperatorRating {
    /// Whether an average of `summary.sum / summary.count` passes this test.
    pub fn accepts(&self, summary: RatingSummary) -> (r: bool)
        requires
            self.threshold().wf(),
            -0x8000_0000 * summary.count <= summary.sum <= 0x7fff_ffff * summary.count,
        ensures
            r == average_passes(*self, summary.sum as int, summary.count as int),
    {
        let t = match *self {
            OperatorRating::Equal(t) => t,
            OperatorRating::NotEqual(t) => t,
            OperatorRating::Greater(t) => t,
            OperatorRating::GreaterOrEqual(t) => t,
            OperatorRating::Less(t) => t,
            OperatorRating::LessOrEqual(t) => t,
        };
        if summary.count == 0 {
            return match *self {
                OperatorRating::NotEqual(_) => true,
                _ => false,
            };
        }
        let sum = summary.sum;
        let count = summary.count as i128;
        let d = t.denominator as i128;
        let n = t.numerator as i128;
        proof {
            lemma_product_bound(sum as int, 0x8000_0000 * count, d as int, 0x7fff_ffff_ffff_ffff_8000_0000, 0xffff_ffff);
            lemma_product_bound(n as int, 0x8000_0000_0000_0000, count as int, 0x8000_0000_0000_0000, 0xffff_ffff_ffff_ffff);
        }
        let lhs = sum * d;
        let rhs = n * count;
        match *self {
            OperatorRating::Equal(_) => lhs == rhs,
            OperatorRating::NotEqual(_) => lhs != rhs,
            OperatorRating::Greater(_) => lhs > rhs,
            OperatorRating::GreaterOrEqual(_) => lhs >= rhs,
            OperatorRating::Less(_) => lhs < rhs,
            OperatorRating::LessOrEqual(_) => lhs <= rhs,
        }
    }
}

/// `|x| <= a <= a_max` and `0 <= y <= y_max` bound `|x * y|` by `a_max * y_max`.
proof fn lemma_product_bound(x: int, a: int, y: int, a_max: int, y_max: int)
    requires
        -a <= x <= a,
        0 <= a <= a_max,
        0 <= y <= y_max,
    ensures
        -(a_max * y_max) <= x * y <= a_max * y_max,
{
    assert(-(a * y) <= x * y <= a * y) by (nonlinear_arith)
        requires
            -a <= x <= a,
            0 <= y,
    ;
    assert(a * y <= a_max * y_max) by (nonlinear_arith)
        requires
            0 <= a <= a_max,
            0 <= y <= y_max,
    ;
}

/// Whether the book with identifier `id` passes `op` on the ratings in `comments`.
pub open spec fn book_passes(op: OperatorRating, comments: Seq<Comment>, id: Seq<char>) -> bool {
    let r = ratings_of(comments, id);
    average_passes(op, sum_of(r), r.len() as int)
}

/// The books among `books` whose average rating passes `op`, in their order.
pub open spec fn books_by_rating(op: OperatorRating, books: Seq<BookRecord>, comments: Seq<Comment>) -> Seq<
    BookView,
>
    decreases books.len(),
{
    if books.len() == 0 {
        Seq::empty()
    } else {
        let b = books.last();
        books_by_rating(op, books.drop_last(), comments) + if book_passes(op, comments, b.id@) {
            seq![b.book@]
        } else {
            Seq::empty()
        }
    }
}

/// The books whose average rating, over the reviews in `comments`, passes `op`.
pub fn get_all_books_by_operator_rating(
    op: OperatorRating,
    books: &Vec<BookRecord>,
    comments: &Vec<Comment>,
) -> (r: Vec<Book>)
    requires
        op.threshold().wf(),
    ensures
        books_view(r@) == books_by_rating(op, books@, comments@),
{
    let mut out: Vec<Book> = Vec::new();
    let mut i: usize = 0;
    assert(books_view(out@) =~= Seq::empty());
    while i < books.len()
        invariant
            i <= books.len(),
            op.threshold().wf(),
            books_view(out@) == books_by_rating(op, books@.subrange(0, i as int), comments@),
        decreases books.len() - i,
    {
        let rec = &books[i];
        assert(books@.subrange(0, i + 1).drop_last() =~= books@.subrange(0, i as int));
        let summary = summarize_ratings(rec.id.as_str(), comments);
        let ghost before = out@;
        if op.accepts(summary) {
            let b = rec.book.duplicate();
            out.push(b);
            assert(books_view(out@) =~= books_view(before).push(b@));
        } else {
            assert(books_view(out@) =~= books_view(before) + Seq::<BookView>::empty());
        }
        i = i + 1;
    }
    assert(books@.subrange(0, i as int) =~= books@);
    out
}

} // verus!
