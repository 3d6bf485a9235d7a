//! Translations: for each collection, how request fields map to document
//! fields and which kind of match each one takes.

use vstd::prelude::*;
use crate::translation::name_map::NameMap;

verus! {

/// Which ends of a range are included.
#[derive(Debug, Clone, Copy, PartialEq, Eq)]
pub enum RangeBound {
    InclusiveUpper,
    InclusiveLower,
    ExclusiveUpper,
    ExclusiveLower,
}

/// How a field is matched.
#[derive(Debug, Clone, Copy, PartialEq, Eq)]
pub enum QueryType {
    StringMatch,
    BoolMatch,
    ObjectIDMatch,
    DateRange(RangeBound),
    Int32Range(RangeBound),
}

/// Where a request field goes in the documents and how it is matched.
#[derive(Debug, Clone)]
pub struct Mapping {
    pub field: String,
    pub query_type: QueryType,
}

/// The mappings of one collection, by request field.
pub type Definitions = NameMap<Mapping>;

/// The definitions of each collection, by collection name.
#[derive(Debug)]
pub struct Translations(NameMap<Definitions>);

impl Translations {
    /// Each collection name and its definitions.
    pub closed spec fn view(&self) -> Map<Seq<char>, Definitions> {
        self.0.view()
    }

    /// The translations held in `collections`.
    pub fn from_collections(collections: NameMap<Definitions>) -> (t: Self)
        ensures
            t.view() == collections.view(),
    {
        Translations(collections)
    }

    /// The definitions by collection name.
    pub fn collections(&self) -> (c: &NameMap<Definitions>)
        ensures
            c.view() == self.view(),
    {
        &self.0
    }

    /// The name of every collection translated, each once, in no promised order.
    pub fn get_names(&self) -> (names: Vec<String>)
        ensures
            names@.map_values(|s: String| s@).no_duplicates(),
            names@.map_values(|s: String| s@).to_set() == self.view().dom(),
    {
        self.0.names()
    }
}

} // verus!
