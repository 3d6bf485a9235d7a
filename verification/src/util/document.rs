//! BSON documents as the rest of the library sees them.
//!
//! `bson::Document` and `bson::Bson` come from the `bson` crate (the crate that
//! `mongodb` re-exports as `mongodb::bson`). Verus sees neither type's inside,
//! so each value carries a model: a document is the sequence of its entries in
//! insertion order, a value is a [`BsonModel`]. The functions below that touch
//! the crate are trusted; their doc comments say what they claim.

use vstd::prelude::*;

verus! {

#[verifier::external_type_specification]
#[verifier::external_body]
pub struct ExDocument(bson::Document);

#[verifier::external_type_specification]
#[verifier::external_body]
pub struct ExBson(bson::Bson);

/// The BSON values that this library puts into documents.
pub enum BsonModel {
    String(Seq<char>),
    Boolean(bool),
    Int32(i32),
    /// Milliseconds since the Unix epoch.
    DateTime(i64),
    /// The twelve bytes of an object id.
    ObjectId(Seq<u8>),
    Document(Seq<(Seq<char>, BsonModel)>),
    Array(Seq<BsonModel>),
}

/// The entries of a document, in order.
pub uninterp spec fn doc_entries(d: bson::Document) -> Seq<(Seq<char>, BsonModel)>;

/// The value that a `Bson` holds.
pub uninterp spec fn bson_model(b: bson::Bson) -> BsonModel;

/// The keys of a sequence of entries, in order.
pub open spec fn keys_of(e: Seq<(Seq<char>, BsonModel)>) -> Seq<Seq<char>> {
    e.map_values(|p: (Seq<char>, BsonModel)| p.0)
}

/// Inserting into an ordered map: a key already present keeps its place and
/// takes the new value; a new key goes last.
pub open spec fn entries_insert(
    e: Seq<(Seq<char>, BsonModel)>,
    key: Seq<char>,
    val: BsonModel,
) -> Seq<(Seq<char>, BsonModel)> {
    if keys_of(e).contains(key) {
        e.update(keys_of(e).index_of(key), (key, val))
    } else {
        e.push((key, val))
    }
}

/// The entry `(key, v)` when a value is there, nothing otherwise.
pub open spec fn opt_entry(key: Seq<char>, v: Option<BsonModel>) -> Seq<(Seq<char>, BsonModel)> {
    match v {
        Some(x) => seq![(key, x)],
        None => Seq::empty(),
    }
}

/// The model of an optional value.
pub open spec fn opt_model(v: Option<bson::Bson>) -> Option<BsonModel> {
    match v {
        Some(b) => Some(bson_model(b)),
        None => None,
    }
}

/// The model of a document held as a value.
pub open spec fn doc_value(d: bson::Document) -> BsonModel {
    BsonModel::Document(doc_entries(d))
}

/// `bson::Document::new`: a document with no entries.
#[verifier::external_body]
pub(crate) fn doc_new() -> (d: bson::Document)
    ensures
        doc_entries(d) == Seq::<(Seq<char>, BsonModel)>::empty(),
{
    bson::Document::new()
}

/// `bson::Document::insert`: the document's `IndexMap::insert` puts a new key
/// last and gives an existing key its new value in place; it returns the value
/// that the key had before, if any.
#[verifier::external_body]
pub(crate) fn doc_insert(doc: &mut bson::Document, key: &str, val: bson::Bson) -> (prev: Option<
    bson::Bson,
>)
    ensures
        doc_entries(*final(doc)) == entries_insert(doc_entries(*old(doc)), key@, bson_model(val)),
        prev is Some <==> keys_of(doc_entries(*old(doc))).contains(key@),
        prev is Some ==> bson_model(prev->0) == doc_entries(*old(doc))[keys_of(
            doc_entries(*old(doc)),
        ).index_of(key@)].1,
{
    doc.insert(key, val)
}

/// `bson::Document::is_empty`: whether the document has no entries.
#[verifier::external_body]
pub(crate) fn doc_is_empty(doc: &bson::Document) -> (b: bool)
    ensures
        b == (doc_entries(*doc).len() == 0),
{
    doc.is_empty()
}

/// The variant `bson::Bson::String`, holding a copy of `s`.
#[verifier::external_body]
pub(crate) fn bson_string(s: &str) -> (b: bson::Bson)
    ensures
        bson_model(b) == BsonModel::String(s@),
{
    bson::Bson::String(s.to_owned())
}

/// The variant `bson::Bson::Boolean`.
#[verifier::external_body]
pub(crate) fn bson_boolean(v: bool) -> (b: bson::Bson)
    ensures
        bson_model(b) == BsonModel::Boolean(v),
{
    bson::Bson::Boolean(v)
}

/// The variant `bson::Bson::Int32`.
#[verifier::external_body]
pub(crate) fn bson_int32(v: i32) -> (b: bson::Bson)
    ensures
        bson_model(b) == BsonModel::Int32(v),
{
    bson::Bson::Int32(v)
}

/// `bson::DateTime::from_millis`, held as `bson::Bson::DateTime`; the date is
/// kept as the given number of milliseconds since the epoch.
#[verifier::external_body]
pub(crate) fn bson_date_time(millis: i64) -> (b: bson::Bson)
    ensures
        bson_model(b) == BsonModel::DateTime(millis),
{
    bson::Bson::DateTime(bson::DateTime::from_millis(millis))
}

/// `bson::oid::ObjectId::from_bytes`, held as `bson::Bson::ObjectId`; the id
/// is the given twelve bytes.
#[verifier::external_body]
pub(crate) fn bson_object_id(bytes: [u8; 12]) -> (b: bson::Bson)
    ensures
        bson_model(b) == BsonModel::ObjectId(bytes@),
{
    bson::Bson::ObjectId(bson::oid::ObjectId::from_bytes(bytes))
}

/// The variant `bson::Bson::Document`, holding `d`.
#[verifier::external_body]
pub(crate) fn bson_document(d: bson::Document) -> (b: bson::Bson)
    ensures
        bson_model(b) == doc_value(d),
{
    bson::Bson::Document(d)
}

/// `bson::Bson::from` on a vector of documents: an array that holds each
/// document, in order.
#[verifier::external_body]
pub(crate) fn bson_document_array(docs: Vec<bson::Document>) -> (b: bson::Bson)
    ensures
        bson_model(b) == BsonModel::Array(docs@.map_values(|d: bson::Document| doc_value(d))),
{
    bson::Bson::from(docs)
}

/// A key that no entry carries is not among the keys.
pub proof fn lemma_fresh_key(e: Seq<(Seq<char>, BsonModel)>, k: Seq<char>)
    requires
        forall|i: int| 0 <= i < e.len() ==> #[trigger] e[i].0 != k,
    ensures
        !keys_of(e).contains(k),
{
    if keys_of(e).contains(k) {
        let i = choose|i: int| 0 <= i < keys_of(e).len() && keys_of(e)[i] == k;
        assert(e[i].0 == k);
    }
}

/// Every key of `e` is one of `ks`.
pub open spec fn keys_within(e: Seq<(Seq<char>, BsonModel)>, ks: Seq<Seq<char>>) -> bool {
    forall|i: int| 0 <= i < e.len() ==> ks.contains(#[trigger] e[i].0)
}

/// When the keys so far are among the first `n` of a list without repeats,
/// the list's next key is not among them.
pub proof fn lemma_next_key_fresh(e: Seq<(Seq<char>, BsonModel)>, ks: Seq<Seq<char>>, n: int)
    requires
        ks.no_duplicates(),
        0 <= n < ks.len(),
        keys_within(e, ks.take(n)),
    ensures
        !keys_of(e).contains(ks[n]),
{
    assert forall|i: int| 0 <= i < e.len() implies #[trigger] e[i].0 != ks[n] by {
        assert(ks.take(n).contains(e[i].0));
        let j = choose|j: int| 0 <= j < ks.take(n).len() && ks.take(n)[j] == e[i].0;
        assert(ks[j] == e[i].0);
    }
    lemma_fresh_key(e, ks[n]);
}

/// Appends the entry `(key, v)` when `v` is given; `key` is the next one of a
/// list of keys without repeats, and the keys so far are those before it.
pub(crate) fn put_next(
    doc: &mut bson::Document,
    key: &str,
    val: Option<bson::Bson>,
    Ghost(ks): Ghost<Seq<Seq<char>>>,
    Ghost(n): Ghost<int>,
)
    requires
        ks.no_duplicates(),
        0 <= n < ks.len(),
        ks[n] == key@,
        keys_within(doc_entries(*old(doc)), ks.take(n)),
    ensures
        doc_entries(*final(doc)) == doc_entries(*old(doc)) + opt_entry(key@, opt_model(val)),
        keys_within(doc_entries(*final(doc)), ks.take(n + 1)),
{
    let ghost e = doc_entries(*doc);
    proof {
        lemma_next_key_fresh(e, ks, n);
    }
    match val {
        Some(v) => {
            put(doc, key, v);
        },
        None => {},
    }
    let ghost e2 = doc_entries(*doc);
    assert(e2 =~= e + opt_entry(key@, opt_model(val)));
    assert forall|i: int| 0 <= i < e2.len() implies ks.take(n + 1).contains(#[trigger] e2[i].0) by {
        if i < e.len() {
            assert(ks.take(n).contains(e[i].0));
            let j = choose|j: int| 0 <= j < ks.take(n).len() && ks.take(n)[j] == e[i].0;
            assert(ks.take(n + 1)[j] == e2[i].0);
        } else {
            assert(ks.take(n + 1)[n] == e2[i].0);
        }
    }
}

/// Appends an entry under a key that the document does not hold yet.
pub(crate) fn put(doc: &mut bson::Document, key: &str, val: bson::Bson)
    requires
        !keys_of(doc_entries(*old(doc))).contains(key@),
    ensures
        doc_entries(*final(doc)) == doc_entries(*old(doc)).push((key@, bson_model(val))),
{
    let _ = doc_insert(doc, key, val);
}

} // verus!
