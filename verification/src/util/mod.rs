//! Range filters shared by the filter-document and search-pipeline builders.

pub mod date_wrapper;
pub mod document;

use vstd::prelude::*;
use crate::util::date_wrapper::DateWrapper;
use crate::util::document::{
    BsonModel, doc_entries, doc_is_empty, doc_new, opt_entry, opt_model, bson_boolean, bson_document,
    bson_int32, bson_object_id, bson_string, put, lemma_fresh_key,
};

verus! {

/// The entries of a document, when there is one.
pub open spec fn opt_doc_entries(d: Option<bson::Document>) -> Option<Seq<(Seq<char>, BsonModel)>> {
    match d {
        Some(doc) => Some(doc_entries(doc)),
        None => None,
    }
}

/// A lower bound under `gte` and an upper bound under `lte`, each where it is
/// given, in that order.
pub open spec fn bounds(
    gte: Seq<char>,
    lte: Seq<char>,
    start: Option<BsonModel>,
    end: Option<BsonModel>,
) -> Seq<(Seq<char>, BsonModel)> {
    opt_entry(gte, start) + opt_entry(lte, end)
}

/// The filter-language range (`$gte` / `$lte`), or nothing when neither bound
/// is given.
pub open spec fn spec_query_range(start: Option<BsonModel>, end: Option<BsonModel>) -> Option<
    Seq<(Seq<char>, BsonModel)>,
> {
    if start is None && end is None {
        None
    } else {
        Some(bounds("$gte"@, "$lte"@, start, end))
    }
}

/// The Atlas Search `range` operator on `path`, or nothing when neither bound
/// is given.
pub open spec fn spec_search_range(
    path: Seq<char>,
    start: Option<BsonModel>,
    end: Option<BsonModel>,
) -> Option<Seq<(Seq<char>, BsonModel)>> {
    if start is None && end is None {
        None
    } else {
        Some(
            seq![
                ("range"@, BsonModel::Document(
                    bounds("gte"@, "lte"@, start, end) + seq![("path"@, BsonModel::String(path))],
                )),
            ],
        )
    }
}

/// A range filter exists exactly when a search range does: both need at
/// least one bound.
pub proof fn lemma_ranges_agree(path: Seq<char>, start: Option<BsonModel>, end: Option<BsonModel>)
    ensures
        spec_query_range(start, end) is Some <==> spec_search_range(path, start, end) is Some,
        spec_query_range(start, end) is Some <==> (start is Some || end is Some),
{
}

/// Builds the Atlas Search clause `{"range": {"gte": start, "lte": end, "path": path}}`,
/// leaving out a bound that is not given; `None` when no bound is given.
pub fn search_range(path: &str, start: Option<bson::Bson>, end: Option<bson::Bson>) -> (r: Option<
    bson::Document,
>)
    ensures
        opt_doc_entries(r) == spec_search_range(path@, opt_model(start), opt_model(end)),
{
    proof {
        reveal_strlit("gte");
        reveal_strlit("lte");
        reveal_strlit("path");
    }
    let ghost s = opt_model(start);
    let ghost e = opt_model(end);
    let mut range = doc_new();
    if let Some(start) = start {
        put(&mut range, "gte", start);
    }
    assert(doc_entries(range) == opt_entry("gte"@, s));
    assert("gte"@[0] != "lte"@[0]);
    proof { lemma_fresh_key(doc_entries(range), "lte"@); }
    if let Some(end) = end {
        put(&mut range, "lte", end);
    }
    assert(doc_entries(range) == bounds("gte"@, "lte"@, s, e));
    if doc_is_empty(&range) {
        return None;
    }
    assert("path"@.len() != "gte"@.len() && "path"@.len() != "lte"@.len());
    proof { lemma_fresh_key(doc_entries(range), "path"@); }
    put(&mut range, "path", bson_string(path));
    assert(doc_entries(range) =~= bounds("gte"@, "lte"@, s, e) + seq![("path"@, BsonModel::String(path@))]);
    let mut clause = doc_new();
    put(&mut clause, "range", bson_document(range));
    assert(doc_entries(clause) =~= spec_search_range(path@, s, e)->0);
    Some(clause)
}

/// Builds the filter range `{"$gte": start, "$lte": end}`, leaving out a bound
/// that is not given; `None` when no bound is given.
pub fn query_range(start: Option<bson::Bson>, end: Option<bson::Bson>) -> (r: Option<
    bson::Document,
>)
    ensures
        opt_doc_entries(r) == spec_query_range(opt_model(start), opt_model(end)),
{
    proof {
        reveal_strlit("$gte");
        reveal_strlit("$lte");
    }
    let ghost s = opt_model(start);
    let ghost e = opt_model(end);
    let mut range = doc_new();
    if let Some(start) = start {
        put(&mut range, "$gte", start);
    }
    assert(doc_entries(range) == opt_entry("$gte"@, s));
    assert("$gte"@[1] != "$lte"@[1]);
    proof { lemma_fresh_key(doc_entries(range), "$lte"@); }
    if let Some(end) = end {
        put(&mut range, "$lte", end);
    }
    assert(doc_entries(range) == bounds("$gte"@, "$lte"@, s, e));
    if doc_is_empty(&range) {
        return None;
    }
    Some(range)
}

/// A filter-language bound key in Atlas Search form: `$gte` becomes `gte`,
/// `$lte` becomes `lte`, any other key stays.
pub open spec fn search_bound_key(k: Seq<char>) -> Seq<char> {
    if k == "$gte"@ {
        "gte"@
    } else if k == "$lte"@ {
        "lte"@
    } else {
        k
    }
}

/// The entries with their keys in Atlas Search form, in the same order.
pub open spec fn search_bound_keys(e: Seq<(Seq<char>, BsonModel)>) -> Seq<(Seq<char>, BsonModel)> {
    e.map_values(|p: (Seq<char>, BsonModel)| (search_bound_key(p.0), p.1))
}

/// The search range is the filter range with `$gte` / `$lte` renamed `gte` /
/// `lte`, the path appended, under `range`; neither exists without a bound.
pub proof fn lemma_search_range_is_renamed_query_range(
    path: Seq<char>,
    start: Option<BsonModel>,
    end: Option<BsonModel>,
)
    ensures
        spec_search_range(path, start, end) == match spec_query_range(start, end) {
            Some(d) => Some(
                seq![
                    ("range"@, BsonModel::Document(
                        search_bound_keys(d) + seq![("path"@, BsonModel::String(path))],
                    )),
                ],
            ),
            None => None,
        },
{
    reveal_strlit("$gte");
    reveal_strlit("$lte");
    assert("$gte"@[1] != "$lte"@[1]);
    if let Some(d) = spec_query_range(start, end) {
        assert(search_bound_keys(d) =~= bounds("gte"@, "lte"@, start, end));
    }
}

/// The model of an optional string.
pub open spec fn opt_string_model(o: Option<String>) -> Option<BsonModel> {
    match o {
        Some(s) => Some(BsonModel::String(s@)),
        None => None,
    }
}

/// The model of an optional flag.
pub open spec fn opt_bool_model(o: Option<bool>) -> Option<BsonModel> {
    match o {
        Some(b) => Some(BsonModel::Boolean(b)),
        None => None,
    }
}

/// The model of an optional 32-bit integer.
pub open spec fn opt_int_model(o: Option<i32>) -> Option<BsonModel> {
    match o {
        Some(i) => Some(BsonModel::Int32(i)),
        None => None,
    }
}

/// The model of an optional date.
pub open spec fn opt_date_model(o: Option<DateWrapper>) -> Option<BsonModel> {
    match o {
        Some(d) => Some(BsonModel::DateTime(d.millis)),
        None => None,
    }
}

/// The model of an optional object id, given by its twelve bytes.
pub open spec fn opt_oid_model(o: Option<[u8; 12]>) -> Option<BsonModel> {
    match o {
        Some(b) => Some(BsonModel::ObjectId(b@)),
        None => None,
    }
}

/// The model of an optional embedded document.
pub open spec fn opt_doc_model(o: Option<Seq<(Seq<char>, BsonModel)>>) -> Option<BsonModel> {
    match o {
        Some(e) => Some(BsonModel::Document(e)),
        None => None,
    }
}

/// An optional string as an optional BSON string.
pub(crate) fn opt_string_bson(o: &Option<String>) -> (r: Option<bson::Bson>)
    ensures
        opt_model(r) == opt_string_model(*o),
{
    match o {
        Some(s) => Some(bson_string(s.as_str())),
        None => None,
    }
}

/// An optional flag as an optional BSON boolean.
pub(crate) fn opt_bool_bson(o: &Option<bool>) -> (r: Option<bson::Bson>)
    ensures
        opt_model(r) == opt_bool_model(*o),
{
    match o {
        Some(b) => Some(bson_boolean(*b)),
        None => None,
    }
}

/// An optional integer as an optional BSON 32-bit integer.
pub(crate) fn opt_int_bson(o: &Option<i32>) -> (r: Option<bson::Bson>)
    ensures
        opt_model(r) == opt_int_model(*o),
{
    match o {
        Some(i) => Some(bson_int32(*i)),
        None => None,
    }
}

/// An optional date as an optional BSON date.
pub(crate) fn opt_date_bson(o: &Option<DateWrapper>) -> (r: Option<bson::Bson>)
    ensures
        opt_model(r) == opt_date_model(*o),
{
    match o {
        Some(d) => Some(d.into_bson()),
        None => None,
    }
}

/// An optional object id as an optional BSON object id.
pub(crate) fn opt_oid_bson(o: &Option<[u8; 12]>) -> (r: Option<bson::Bson>)
    ensures
        opt_model(r) == opt_oid_model(*o),
{
    match o {
        Some(b) => Some(bson_object_id(*b)),
        None => None,
    }
}

/// An optional document as an optional embedded document.
pub(crate) fn opt_doc_bson(o: Option<bson::Document>) -> (r: Option<bson::Bson>)
    ensures
        opt_model(r) == opt_doc_model(opt_doc_entries(o)),
{
    match o {
        Some(d) => Some(bson_document(d)),
        None => None,
    }
}

} // verus!
