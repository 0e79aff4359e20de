//! Typed field values of partial updates and search filters.
use vstd::prelude::*;

verus! {

/// A value to store in, or to match against, one field of a record.
#[derive(Clone, Debug)]
pub enum Value {
    Int(i32),
    Bool(bool),
    Text(String),
    TextList(Vec<String>),
}

/// What a [`Value`] holds, with text as characters.
pub enum ValueView {
    Int(i32),
    Bool(bool),
    Text(Seq<char>),
    TextList(Seq<Seq<char>>),
}

pub open spec fn texts_view(v: Seq<String>) -> Seq<Seq<char>> {
    v.map_values(|s: String| s@)
}

impl View for Value {
    type V = ValueView;

    open spec fn view(&self) -> ValueView {
        match self {
            Value::Int(i) => ValueView::Int(*i),
            Value::Bool(b) => ValueView::Bool(*b),
            Value::Text(t) => ValueView::Text(t@),
            Value::TextList(l) => ValueView::TextList(texts_view(l@)),
        }
    }
}

/// A list of (field, value) pairs, with each value seen through its view.
pub open spec fn entries_view<F>(s: Seq<(F, Value)>) -> Seq<(F, ValueView)> {
    s.map_values(|e: (F, Value)| (e.0, e.1@))
}

/// No pair when the field is absent, else the one pair for it.
pub open spec fn entry_if<F>(f: F, v: Option<ValueView>) -> Seq<(F, ValueView)> {
    match v {
        Some(x) => seq![(f, x)],
        None => Seq::empty(),
    }
}

pub open spec fn text_of(t: Option<String>) -> Option<ValueView> {
    match t {
        Some(s) => Some(ValueView::Text(s@)),
        None => None,
    }
}

pub open spec fn int_of(t: Option<i32>) -> Option<ValueView> {
    match t {
        Some(i) => Some(ValueView::Int(i)),
        None => None,
    }
}

pub open spec fn bool_of(t: Option<bool>) -> Option<ValueView> {
    match t {
        Some(b) => Some(ValueView::Bool(b)),
        None => None,
    }
}

pub open spec fn texts_of(t: Option<Vec<String>>) -> Option<ValueView> {
    match t {
        Some(l) => Some(ValueView::TextList(texts_view(l@))),
        None => None,
    }
}

/// Appends `(f, v)` to `entries` when `v` is present.
pub(crate) fn push_text<F>(entries: &mut Vec<(F, Value)>, f: F, v: &Option<String>)
    ensures
        entries_view(final(entries)@) == entries_view(old(entries)@) + entry_if(f, text_of(*v)),
{
    if let Some(t) = v {
        entries.push((f, Value::Text(t.clone())));
    }
    assert(entries_view(entries@) =~= entries_view(old(entries)@) + entry_if(f, text_of(*v)));
}

/// Appends `(f, v)` to `entries` when `v` is present.
pub(crate) fn push_int<F>(entries: &mut Vec<(F, Value)>, f: F, v: Option<i32>)
    ensures
        entries_view(final(entries)@) == entries_view(old(entries)@) + entry_if(f, int_of(v)),
{
    if let Some(i) = v {
        entries.push((f, Value::Int(i)));
    }
    assert(entries_view(entries@) =~= entries_view(old(entries)@) + entry_if(f, int_of(v)));
}

/// Appends `(f, v)` to `entries` when `v` is present.
pub(crate) fn push_bool<F>(entries: &mut Vec<(F, Value)>, f: F, v: Option<bool>)
    ensures
        entries_view(final(entries)@) == entries_view(old(entries)@) + entry_if(f, bool_of(v)),
{
    if let Some(b) = v {
        entries.push((f, Value::Bool(b)));
    }
    assert(entries_view(entries@) =~= entries_view(old(entries)@) + entry_if(f, bool_of(v)));
}

/// Copies `src` element by element.
pub(crate) fn copy_texts(src: &Vec<String>) -> (r: Vec<String>)
    ensures
        texts_view(r@) == texts_view(src@),
{
    let mut r: Vec<String> = Vec::new();
    let mut i: usize = 0;
    while i < src.len()
        invariant
            i <= src.len(),
            texts_view(r@) == texts_view(src@.subrange(0, i as int)),
        decreases src.len() - i,
    {
        let c = src[i].clone();
        assert(c@ == src@[i as int]@);
        let ghost before = r@;
        r.push(c);
        assert(r@ == before.push(c));
        assert(src@.subrange(0, i + 1) =~= src@.subrange(0, i as int).push(src@[i as int]));
        assert(texts_view(r@) =~= texts_view(before).push(c@));
        assert(texts_view(r@) =~= texts_view(src@.subrange(0, i + 1)));
        i = i + 1;
    }
    assert(src@.subrange(0, i as int) =~= src@);
    r
}

/// Appends `(f, v)` to `entries` when `v` is present.
pub(crate) fn push_texts<F>(entries: &mut Vec<(F, Value)>, f: F, v: &Option<Vec<String>>)
    ensures
        entries_view(final(entries)@) == entries_view(old(entries)@) + entry_if(f, texts_of(*v)),
{
    if let Some(l) = v {
        entries.push((f, Value::TextList(copy_texts(l))));
    }
    assert(entries_view(entries@) =~= entries_view(old(entries)@) + entry_if(f, texts_of(*v)));
}

} // verus!
