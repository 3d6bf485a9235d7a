//! Query definitions: for each collection, how the fields of a request map to
//! the fields of its documents and which kind of filter each one takes.

use vstd::prelude::*;
use crate::translation::name_map::NameMap;
use crate::util::date_wrapper::DateWrapper;

verus! {

/// A bound of a range filter.
#[derive(Debug, Clone, Copy)]
pub enum RangeType {
    Date(DateWrapper),
    Int(i32),
}

/// Which ends of a range are included.
#[derive(Debug, Clone, Copy, PartialEq, Eq)]
pub enum RangeBound {
    InclusiveUpper,
    InclusiveLower,
    ExclusiveUpper,
    ExclusiveLower,
}

/// A range filter with optional limits.
#[derive(Debug, Clone, Copy)]
pub struct Range {
    pub bound: RangeBound,
    pub min: Option<RangeType>,
    pub max: Option<RangeType>,
}

/// How a field is matched.
#[derive(Debug, Clone, Copy)]
pub enum QueryType {
    Equal,
    Range(Range),
}

/// The type of a document field.
#[derive(Debug, Clone, Copy, PartialEq, Eq)]
pub enum DataType {
    String,
    ObjectId,
    Date,
    Bool,
    Int,
}

/// Where a request field goes in the documents and how it is matched.
#[derive(Debug, Clone)]
pub struct Mapping {
    pub field: String,
    pub datatype: DataType,
    pub query: QueryType,
    pub optional: Option<bool>,
}

/// The mappings of one collection, by request field.
pub type FieldParameters = NameMap<Mapping>;

/// The field parameters of each collection, by collection name.
#[derive(Debug)]
pub struct QueryDefinitions(NameMap<FieldParameters>);

impl QueryDefinitions {
    /// Each collection name and its field parameters.
    pub closed spec fn view(&self) -> Map<Seq<char>, FieldParameters> {
        self.0.view()
    }

    /// No definitions at all.
    pub fn new() -> (d: Self)
        ensures
            d.view() == Map::<Seq<char>, FieldParameters>::empty(),
    {
        QueryDefinitions(NameMap::new())
    }

    /// The definitions held in `collections`.
    pub fn from_collections(collections: NameMap<FieldParameters>) -> (d: Self)
        ensures
            d.view() == collections.view(),
    {
        QueryDefinitions(collections)
    }

    /// The field parameters by collection name.
    pub fn collections(&self) -> (c: &NameMap<FieldParameters>)
        ensures
            c.view() == self.view(),
    {
        &self.0
    }

    /// The name of every collection defined, each once, in no promised order.
    pub fn get_names(&self) -> (names: Vec<String>)
        ensures
            names@.map_values(|s: String| s@).no_duplicates(),
            names@.map_values(|s: String| s@).to_set() == self.view().dom(),
    {
        self.0.names()
    }

    /// These definitions together with `more`; where both define a
    /// collection, `more`'s definition is kept.
    pub fn add_def(self, more: QueryDefinitions) -> (d: Self)
        ensures
            d.view() == self.view().union_prefer_right(more.view()),
    {
        let QueryDefinitions(mut copy) = self;
        copy.extend(more.0);
        QueryDefinitions(copy)
    }
}

/// Adding no definitions, or adding definitions to none, changes nothing.
pub proof fn lemma_add_def_empty(d: QueryDefinitions)
    ensures
        d.view().union_prefer_right(Map::<Seq<char>, FieldParameters>::empty()) == d.view(),
        Map::<Seq<char>, FieldParameters>::empty().union_prefer_right(d.view()) == d.view(),
{
    assert(d.view().union_prefer_right(Map::<Seq<char>, FieldParameters>::empty()) =~= d.view());
    assert(Map::<Seq<char>, FieldParameters>::empty().union_prefer_right(d.view()) =~= d.view());
}

/// Merging files one at a time gives the same definitions however the merges
/// are grouped.
pub proof fn lemma_add_def_associative(a: QueryDefinitions, b: QueryDefinitions, c: QueryDefinitions)
    ensures
        a.view().union_prefer_right(b.view()).union_prefer_right(c.view()) == a.view().union_prefer_right(
            b.view().union_prefer_right(c.view()),
        ),
{
    assert(a.view().union_prefer_right(b.view()).union_prefer_right(c.view()) =~= a.view().union_prefer_right(
        b.view().union_prefer_right(c.view()),
    ));
}

/// After a merge, the collections defined are those of both sides; a
/// collection that the added definitions hold has their field parameters,
/// any other keeps its own.
pub proof fn lemma_add_def_collections(a: QueryDefinitions, b: QueryDefinitions)
    ensures
        a.view().union_prefer_right(b.view()).dom() == a.view().dom().union(b.view().dom()),
        forall|name: Seq<char>| #[trigger]
            b.view().contains_key(name) ==> a.view().union_prefer_right(b.view())[name]
                == b.view()[name],
        forall|name: Seq<char>|
            a.view().contains_key(name) && !b.view().contains_key(name) ==> #[trigger] a.view().union_prefer_right(
                b.view(),
            )[name] == a.view()[name],
{
    assert(a.view().union_prefer_right(b.view()).dom() =~= a.view().dom().union(b.view().dom()));
}

} // verus!
