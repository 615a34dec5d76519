//! Text search over anything that can name its fields.

use vstd::prelude::*;
use crate::text::{contains_lowercase, has_substring, lowercase, str_equal, to_lowercase};

verus! {

/// Something that can be searched: it lists its fields, each with its name
/// and its text.
pub trait Searchable {
    /// The fields, as pairs of name and text.
    fn search_fields(&self) -> Vec<(&str, &str)>;
}

/// A query and the fields it looks at.
#[derive(Debug)]
pub struct SearchFilter {
    query: String,
    target_fields: Vec<String>,
}

/// The content of a [`SearchFilter`]: the query in lower case, and the names
/// of the fields it looks at, none of which means all fields.
pub struct SearchFilterView {
    pub query: Seq<char>,
    pub target_fields: Seq<Seq<char>>,
}

impl View for SearchFilter {
    type V = SearchFilterView;

    closed spec fn view(&self) -> SearchFilterView {
        SearchFilterView { query: self.query@, target_fields: self.target_fields.deep_view() }
    }
}

/// The form in which a filter keeps a query: the empty query as it is, and
/// any other query in lower case.
pub open spec fn kept_query(query: Seq<char>) -> Seq<char> {
    if query.len() == 0 {
        query
    } else {
        lowercase(query)
    }
}

/// Whether a filter looks at the field of this name.
pub open spec fn is_target(filter: SearchFilterView, name: Seq<char>) -> bool {
    filter.target_fields.len() == 0 || filter.target_fields.contains(name)
}

/// Whether a field answers a filter: the filter looks at it, and its text,
/// in lower case, contains the query.
pub open spec fn field_matches(filter: SearchFilterView, field: (Seq<char>, Seq<char>)) -> bool {
    is_target(filter, field.0) && has_substring(lowercase(field.1), filter.query)
}

/// Whether a list of fields answers a filter: the empty query is answered
/// by anything, and any other query by a list with a field that answers it.
pub open spec fn fields_match(filter: SearchFilterView, fields: Seq<(Seq<char>, Seq<char>)>) -> bool {
    filter.query.len() == 0 || exists|i: int|
        0 <= i < fields.len() && field_matches(filter, #[trigger] fields[i])
}

/// That `verdict` is a filter's answer for an item: the item lists fields
/// for which the filter gives that answer.
pub open spec fn is_verdict<T: Searchable>(filter: SearchFilterView, item: &T, verdict: bool) -> bool {
    exists|fields: Vec<(&str, &str)>|
        #[trigger] call_ensures(T::search_fields, (item,), fields) && verdict == fields_match(
            filter,
            fields.deep_view(),
        )
}

/// The items of a list that are marked in a list of marks of the same
/// length, in their order.
pub open spec fn marked<T>(items: Seq<T>, marks: Seq<bool>) -> Seq<T>
    decreases items.len(),
{
    if items.len() == 0 || marks.len() != items.len() {
        Seq::empty()
    } else {
        let rest = marked(items.drop_last(), marks.drop_last());
        if marks.last() {
            rest.push(items.last())
        } else {
            rest
        }
    }
}

/// That `kept` is what a filter keeps of `items`: every item has an answer
/// of the filter, and `kept` holds the items whose answer is yes, in their
/// order.
pub open spec fn is_selection<T: Searchable>(
    filter: SearchFilterView,
    items: Seq<T>,
    kept: Seq<T>,
) -> bool {
    exists|verdicts: Seq<bool>|
        {
            &&& verdicts.len() == items.len()
            &&& forall|i: int|
                0 <= i < items.len() ==> is_verdict(filter, &#[trigger] items[i], verdicts[i])
            &&& kept == #[trigger] marked(items, verdicts)
        }
}

impl SearchFilter {
    /// A filter for `query` that looks at every field.  Case is ignored: the
    /// query is kept in lower case.  The empty query is kept as it is, and is
    /// answered by everything.
    pub fn new(query: &str) -> (r: Self)
        ensures
            r@.query == kept_query(query@),
            query@.len() == 0 ==> r@.query.len() == 0,
            r@.target_fields == Seq::<Seq<char>>::empty(),
    {
        let kept = if query.is_empty() {
            String::new()
        } else {
            to_lowercase(query)
        };
        SearchFilter { query: kept, target_fields: Vec::new() }
    }

    /// The same query, looking only at the fields with these names; at every
    /// field if no name is given.
    pub fn with_fields(self, fields: Vec<String>) -> (r: Self)
        ensures
            r@.query == self@.query,
            r@.target_fields == fields.deep_view(),
    {
        SearchFilter { query: self.query, target_fields: fields }
    }

    /// Whether the filter looks at the field of this name.
    pub fn targets(&self, name: &str) -> (r: bool)
        ensures
            r == is_target(self@, name@),
    {
        if self.target_fields.len() == 0 {
            return true;
        }
        let ghost names = self.target_fields.deep_view();
        let mut i: usize = 0;
        while i < self.target_fields.len()
            invariant
                i <= self.target_fields.len(),
                names == self.target_fields.deep_view(),
                forall|k: int| 0 <= k < i ==> names[k] != name@,
            decreases self.target_fields.len() - i,
        {
            if str_equal(self.target_fields[i].as_str(), name) {
                assert(names[i as int] == name@);
                return true;
            }
            i += 1;
        }
        false
    }

    /// Whether a list of fields answers the filter.
    pub fn matches_fields(&self, fields: &Vec<(&str, &str)>) -> (r: bool)
        ensures
            r == fields_match(self@, fields.deep_view()),
    {
        if self.query.as_str().is_empty() {
            return true;
        }
        let ghost all = fields.deep_view();
        let mut i: usize = 0;
        while i < fields.len()
            invariant
                i <= fields.len(),
                all == fields.deep_view(),
                forall|k: int| 0 <= k < i ==> !field_matches(self@, #[trigger] all[k]),
            decreases fields.len() - i,
        {
            let field = fields[i];
            assert(all[i as int] == (field.0@, field.1@));
            if self.targets(field.0) && contains_lowercase(field.1, self.query.as_str()) {
                return true;
            }
            i += 1;
        }
        false
    }

    /// Whether an item answers the filter: whether the fields that the item
    /// lists do.
    pub fn matches<T: Searchable>(&self, item: &T) -> (r: bool)
        ensures
            is_verdict(self@, item, r),
    {
        let fields = item.search_fields();
        let r = self.matches_fields(&fields);
        r
    }
}

/// Keeps the items that answer a filter, in their order: every item gets
/// the filter's answer, and the result holds those for which it was yes.
pub fn search_items<T: Searchable>(items: Vec<T>, filter: &SearchFilter) -> (r: Vec<T>)
    ensures
        is_selection(filter@, items@, r@),
{
    let ghost raw = items@;
    let ghost mut verdicts: Seq<bool> = Seq::empty();
    let mut out: Vec<T> = Vec::new();
    for item in it: items
        invariant
            it.seq() == raw,
            verdicts.len() == it.index(),
            forall|i: int|
                0 <= i < verdicts.len() ==> is_verdict(filter@, &#[trigger] raw[i], verdicts[i]),
            out@ == marked(raw.take(it.index() as int), verdicts),
    {
        let ghost index = verdicts.len() as int;
        let keep = filter.matches(&item);
        proof {
            assert(raw.take(index + 1).drop_last() =~= raw.take(index));
            assert(verdicts.push(keep).drop_last() =~= verdicts);
            verdicts = verdicts.push(keep);
        }
        if keep {
            out.push(item);
        }
    }
    assert(raw.take(raw.len() as int) =~= raw);
    out
}

/// The empty query keeps everything: whatever fields an item lists, they
/// answer a filter whose query is empty.
pub proof fn lemma_empty_query_matches(filter: SearchFilterView, fields: Seq<(Seq<char>, Seq<char>)>)
    requires
        filter.query.len() == 0,
    ensures
        fields_match(filter, fields),
{
}

/// What is kept is part of what was given: marking never adds an item and
/// never changes the order, and marks that are all yes keep the whole list.
pub proof fn lemma_marked<T>(items: Seq<T>, marks: Seq<bool>)
    requires
        marks.len() == items.len(),
    ensures
        marked(items, marks).len() <= items.len(),
        (forall|i: int| 0 <= i < marks.len() ==> marks[i]) ==> marked(items, marks) == items,
    decreases items.len(),
{
    if items.len() > 0 {
        lemma_marked(items.drop_last(), marks.drop_last());
        if forall|i: int| 0 <= i < marks.len() ==> marks[i] {
        }
    }
}

} // verus!
