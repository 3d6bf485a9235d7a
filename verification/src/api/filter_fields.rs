//! What each field of a request becomes in the filter document: read by key,
//! the document gives every parameter back, each under its own field, and
//! nothing else.

use vstd::prelude::*;
use crate::api::value_under;
use crate::api::search_filters::join_upto;
use crate::api::sequence_query::{SequenceQuery, query_keys, lemma_query_keys_distinct};
use crate::util::document::{BsonModel, keys_of, opt_entry};
use crate::util::{
    bounds, opt_bool_model, opt_date_model, opt_doc_model, opt_int_model, opt_oid_model,
    opt_string_model, spec_query_range,
};

verus! {

/// The value of a range field: absent when neither bound is given; otherwise
/// a document holding the lower bound under `lower_key` and the upper bound
/// under `upper_key`, each exactly when given, and no other key.
pub open spec fn range_value_ok(
    v: Option<BsonModel>,
    lower_key: Seq<char>,
    upper_key: Seq<char>,
    lower: Option<BsonModel>,
    upper: Option<BsonModel>,
) -> bool {
    if lower is None && upper is None {
        v is None
    } else {
        &&& v matches Some(BsonModel::Document(e))
        &&& value_under(e, lower_key) == lower
        &&& value_under(e, upper_key) == upper
        &&& forall|i: int| 0 <= i < e.len() ==> #[trigger] e[i].0 == lower_key || e[i].0 == upper_key
    }
}

/// The value under a key in `a + b` is the one in `b` if `b` has the key,
/// else the one in `a`.
pub proof fn lemma_value_under_concat(
    a: Seq<(Seq<char>, BsonModel)>,
    b: Seq<(Seq<char>, BsonModel)>,
    k: Seq<char>,
)
    ensures
        value_under(a + b, k) == match value_under(b, k) {
            Some(x) => Some(x),
            None => value_under(a, k),
        },
    decreases b.len(),
{
    if b.len() == 0 {
        assert(a + b =~= a);
    } else {
        assert((a + b).drop_last() =~= a + b.drop_last());
        lemma_value_under_concat(a, b.drop_last(), k);
    }
}

/// A key that no entry carries has no value.
pub proof fn lemma_value_under_absent(e: Seq<(Seq<char>, BsonModel)>, k: Seq<char>)
    requires
        forall|i: int| 0 <= i < e.len() ==> #[trigger] e[i].0 != k,
    ensures
        value_under(e, k) is None,
    decreases e.len(),
{
    if e.len() > 0 {
        lemma_value_under_absent(e.drop_last(), k);
    }
}

/// Groups of entries, each group's keys all its own key, the keys all
/// different: reading a key gives what its group holds.
proof fn lemma_lookup_groups(
    g: Seq<Seq<(Seq<char>, BsonModel)>>,
    ks: Seq<Seq<char>>,
    n: nat,
    m: int,
)
    requires
        g.len() == ks.len(),
        n <= g.len(),
        ks.no_duplicates(),
        0 <= m < ks.len(),
        forall|j: int, i: int| 0 <= j < g.len() && 0 <= i < g[j].len() ==> #[trigger] g[j][i].0 == ks[j],
    ensures
        value_under(join_upto(Seq::empty(), g, n), ks[m]) == if m < n {
            value_under(g[m], ks[m])
        } else {
            None
        },
    decreases n,
{
    if n > 0 {
        let prev = join_upto(Seq::empty(), g, (n - 1) as nat);
        lemma_lookup_groups(g, ks, (n - 1) as nat, m);
        lemma_value_under_concat(prev, g[n - 1], ks[m]);
        if m != n - 1 {
            assert forall|i: int| 0 <= i < g[n - 1].len() implies #[trigger] g[n - 1][i].0 != ks[m] by {
                assert(g[n - 1][i].0 == ks[n - 1]);
            }
            lemma_value_under_absent(g[n - 1], ks[m]);
        }
    } else {
        assert(value_under(Seq::<(Seq<char>, BsonModel)>::empty(), ks[m]) is None);
    }
}

/// The keys of the joined groups are keys of the groups, each once when each
/// group holds at most one entry.
proof fn lemma_groups_keys(
    g: Seq<Seq<(Seq<char>, BsonModel)>>,
    ks: Seq<Seq<char>>,
    n: nat,
)
    requires
        g.len() == ks.len(),
        n <= g.len(),
        ks.no_duplicates(),
        forall|j: int| 0 <= j < g.len() ==> #[trigger] g[j].len() <= 1,
        forall|j: int, i: int| 0 <= j < g.len() && 0 <= i < g[j].len() ==> #[trigger] g[j][i].0 == ks[j],
    ensures
        keys_of(join_upto(Seq::empty(), g, n)).no_duplicates(),
        forall|i: int|
            0 <= i < join_upto(Seq::empty(), g, n).len() ==> ks.take(n as int).contains(
                #[trigger] join_upto(Seq::empty(), g, n)[i].0,
            ),
    decreases n,
{
    let e = join_upto(Seq::empty(), g, n);
    if n == 0 {
        assert(keys_of(e) =~= Seq::empty());
    } else {
        let prev = join_upto(Seq::empty(), g, (n - 1) as nat);
        lemma_groups_keys(g, ks, (n - 1) as nat);
        assert forall|i: int| 0 <= i < e.len() implies ks.take(n as int).contains(#[trigger] e[i].0) by {
            if i < prev.len() {
                assert(ks.take((n - 1) as int).contains(prev[i].0));
                let j = choose|j: int| 0 <= j < ks.take((n - 1) as int).len() && #[trigger] ks.take((n - 1) as int)[j] == prev[i].0;
                assert(ks.take(n as int)[j] == e[i].0);
            } else {
                assert(g[n - 1][i - prev.len()].0 == ks[n - 1]);
                assert(ks.take(n as int)[n - 1] == e[i].0);
            }
        }
        assert forall|a: int, b: int| 0 <= a < keys_of(e).len() && 0 <= b < keys_of(e).len() && a != b
            implies keys_of(e)[a] != keys_of(e)[b] by {
            if a < prev.len() && b < prev.len() {
                assert(keys_of(prev)[a] == keys_of(e)[a]);
                assert(keys_of(prev)[b] == keys_of(e)[b]);
            } else if a >= prev.len() && b >= prev.len() {
            } else {
                let (x, y) = if a < prev.len() { (a, b) } else { (b, a) };
                assert(ks.take((n - 1) as int).contains(prev[x].0));
                let j = choose|j: int| 0 <= j < ks.take((n - 1) as int).len() && #[trigger] ks.take((n - 1) as int)[j] == prev[x].0;
                assert(g[n - 1][y - prev.len()].0 == ks[n - 1]);
                assert(ks[j] != ks[n - 1]);
            }
        }
    }
}

/// The filter document, one group of entries per field.
spec fn query_groups(q: SequenceQuery) -> Seq<Seq<(Seq<char>, BsonModel)>> {
    seq![
        seq![("airline_code"@, BsonModel::String(q.airline_code@))],
        seq![("contract_month"@, BsonModel::String(q.contract_month@))],
        seq![("seq_type"@, BsonModel::String(q.seq_type@))],
        seq![("base"@, BsonModel::String(q.base@))],
        opt_entry("base_indicator"@, opt_string_model(q.base_indicator)),
        opt_entry("_id"@, opt_oid_model(q._id)),
        opt_entry(
            "start_date"@,
            opt_doc_model(spec_query_range(opt_date_model(q.start_date_start), opt_date_model(q.start_date_end))),
        ),
        opt_entry(
            "end_date"@,
            opt_doc_model(spec_query_range(opt_date_model(q.end_date_start), opt_date_model(q.end_date_end))),
        ),
        opt_entry(
            "duration_day"@,
            opt_doc_model(spec_query_range(opt_int_model(q.duration_day_min), opt_int_model(q.duration_day_max))),
        ),
        opt_entry(
            "num_legs"@,
            opt_doc_model(spec_query_range(opt_int_model(q.num_legs_min), opt_int_model(q.num_legs_max))),
        ),
        opt_entry("odan"@, opt_bool_model(q.odan)),
        opt_entry("red_eye"@, opt_bool_model(q.red_eye)),
        opt_entry("training"@, opt_bool_model(q.training)),
        opt_entry("satellite"@, opt_bool_model(q.satellite)),
        opt_entry("observation_trip"@, opt_bool_model(q.observation_trip)),
    ]
}

#[verifier::spinoff_prover]
#[verifier::rlimit(60)]
proof fn lemma_query_is_grouped(q: SequenceQuery)
    ensures
        q.spec_to_query() == join_upto(Seq::empty(), query_groups(q), 15),
        query_groups(q).len() == 15,
        forall|j: int| 0 <= j < 15 ==> #[trigger] query_groups(q)[j].len() <= 1,
        forall|j: int, i: int|
            0 <= j < 15 && 0 <= i < query_groups(q)[j].len() ==> #[trigger] query_groups(q)[j][i].0
                == query_keys()[j],
{
    reveal_with_fuel(join_upto, 16);
    let g = query_groups(q);
    assert(join_upto(Seq::empty(), g, 4) =~= seq![
        ("airline_code"@, BsonModel::String(q.airline_code@)),
        ("contract_month"@, BsonModel::String(q.contract_month@)),
        ("seq_type"@, BsonModel::String(q.seq_type@)),
        ("base"@, BsonModel::String(q.base@)),
    ]);
    assert(q.spec_to_query() =~= join_upto(Seq::empty(), g, 15));
}

/// The bounds document of a range holds each given bound under its key and
/// no other key.
pub(crate) proof fn lemma_bounds_ok(lower_key: Seq<char>, upper_key: Seq<char>, lower: Option<BsonModel>, upper: Option<BsonModel>)
    requires
        lower_key != upper_key,
        lower is Some || upper is Some,
    ensures
        range_value_ok(
            Some(BsonModel::Document(bounds(lower_key, upper_key, lower, upper))),
            lower_key,
            upper_key,
            lower,
            upper,
        ),
{
    let e = bounds(lower_key, upper_key, lower, upper);
    lemma_value_under_concat(opt_entry(lower_key, lower), opt_entry(upper_key, upper), lower_key);
    lemma_value_under_concat(opt_entry(lower_key, lower), opt_entry(upper_key, upper), upper_key);
    reveal_with_fuel(value_under, 2);
}

/// The filter range of two bounds holds the lower one under `$gte` and the
/// upper one under `$lte`, each exactly when given, and nothing else; without
/// bounds there is no range.
pub proof fn lemma_query_range_ok(lower: Option<BsonModel>, upper: Option<BsonModel>)
    ensures
        range_value_ok(opt_doc_model(spec_query_range(lower, upper)), "$gte"@, "$lte"@, lower, upper),
{
    if lower is Some || upper is Some {
        reveal_strlit("$gte");
        reveal_strlit("$lte");
        assert("$gte"@[1] != "$lte"@[1]);
        lemma_bounds_ok("$gte"@, "$lte"@, lower, upper);
    }
}

/// The filter document read by field, over the value models.
#[verifier::spinoff_prover]
#[verifier::rlimit(60)]
pub(crate) proof fn lemma_filter_document_values(q: SequenceQuery)
    ensures
        keys_of(q.spec_to_query()).no_duplicates(),
        forall|k: Seq<char>| #![auto] !query_keys().contains(k) ==> value_under(q.spec_to_query(), k) is None,
        value_under(q.spec_to_query(), "airline_code"@) == Some(BsonModel::String(q.airline_code@)),
        value_under(q.spec_to_query(), "contract_month"@) == Some(BsonModel::String(q.contract_month@)),
        value_under(q.spec_to_query(), "seq_type"@) == Some(BsonModel::String(q.seq_type@)),
        value_under(q.spec_to_query(), "base"@) == Some(BsonModel::String(q.base@)),
        value_under(q.spec_to_query(), "base_indicator"@) == opt_string_model(q.base_indicator),
        value_under(q.spec_to_query(), "_id"@) == opt_oid_model(q._id),
        range_value_ok(
            value_under(q.spec_to_query(), "start_date"@),
            "$gte"@,
            "$lte"@,
            opt_date_model(q.start_date_start),
            opt_date_model(q.start_date_end),
        ),
        range_value_ok(
            value_under(q.spec_to_query(), "end_date"@),
            "$gte"@,
            "$lte"@,
            opt_date_model(q.end_date_start),
            opt_date_model(q.end_date_end),
        ),
        range_value_ok(
            value_under(q.spec_to_query(), "duration_day"@),
            "$gte"@,
            "$lte"@,
            opt_int_model(q.duration_day_min),
            opt_int_model(q.duration_day_max),
        ),
        range_value_ok(
            value_under(q.spec_to_query(), "num_legs"@),
            "$gte"@,
            "$lte"@,
            opt_int_model(q.num_legs_min),
            opt_int_model(q.num_legs_max),
        ),
        value_under(q.spec_to_query(), "odan"@) == opt_bool_model(q.odan),
        value_under(q.spec_to_query(), "red_eye"@) == opt_bool_model(q.red_eye),
        value_under(q.spec_to_query(), "training"@) == opt_bool_model(q.training),
        value_under(q.spec_to_query(), "satellite"@) == opt_bool_model(q.satellite),
        value_under(q.spec_to_query(), "observation_trip"@) == opt_bool_model(q.observation_trip),
{
    let g = query_groups(q);
    let ks = query_keys();
    lemma_query_keys_distinct();
    lemma_query_is_grouped(q);
    lemma_groups_keys(g, ks, 15);
    assert(ks.take(15) =~= ks);
    let d = q.spec_to_query();
    assert forall|k: Seq<char>| #![auto] !ks.contains(k) implies value_under(d, k) is None by {
        assert forall|i: int| 0 <= i < d.len() implies #[trigger] d[i].0 != k by {
            assert(ks.take(15).contains(d[i].0));
        }
        lemma_value_under_absent(d, k);
    }
    reveal_with_fuel(value_under, 2);
    lemma_lookup_groups(g, ks, 15, 0);
    lemma_lookup_groups(g, ks, 15, 1);
    lemma_lookup_groups(g, ks, 15, 2);
    lemma_lookup_groups(g, ks, 15, 3);
    lemma_lookup_groups(g, ks, 15, 4);
    lemma_lookup_groups(g, ks, 15, 5);
    lemma_lookup_groups(g, ks, 15, 6);
    lemma_lookup_groups(g, ks, 15, 7);
    lemma_lookup_groups(g, ks, 15, 8);
    lemma_lookup_groups(g, ks, 15, 9);
    lemma_lookup_groups(g, ks, 15, 10);
    lemma_lookup_groups(g, ks, 15, 11);
    lemma_lookup_groups(g, ks, 15, 12);
    lemma_lookup_groups(g, ks, 15, 13);
    lemma_lookup_groups(g, ks, 15, 14);
    lemma_query_range_ok(opt_date_model(q.start_date_start), opt_date_model(q.start_date_end));
    lemma_query_range_ok(opt_date_model(q.end_date_start), opt_date_model(q.end_date_end));
    lemma_query_range_ok(opt_int_model(q.duration_day_min), opt_int_model(q.duration_day_max));
    lemma_query_range_ok(opt_int_model(q.num_legs_min), opt_int_model(q.num_legs_max));
}

/// Reading the filter document by field gives back the request: each required
/// field under its name; each optional value under its name exactly when it
/// is given; each date or count range as a `$gte` / `$lte` document of that
/// field's own lower and upper bounds; no other field, and no field twice.
pub proof fn lemma_filter_document_fields(q: SequenceQuery)
    ensures
        keys_of(q.spec_to_query()).no_duplicates(),
        forall|k: Seq<char>| #![auto] !query_keys().contains(k) ==> value_under(q.spec_to_query(), k) is None,
        value_under(q.spec_to_query(), "airline_code"@) == Some(BsonModel::String(q.airline_code@)),
        value_under(q.spec_to_query(), "contract_month"@) == Some(BsonModel::String(q.contract_month@)),
        value_under(q.spec_to_query(), "seq_type"@) == Some(BsonModel::String(q.seq_type@)),
        value_under(q.spec_to_query(), "base"@) == Some(BsonModel::String(q.base@)),
        value_under(q.spec_to_query(), "base_indicator"@) == match q.base_indicator { Some(t) => Some(BsonModel::String(t@)), None => None },
        value_under(q.spec_to_query(), "_id"@) == match q._id { Some(b) => Some(BsonModel::ObjectId(b@)), None => None },
        range_value_ok(
            value_under(q.spec_to_query(), "start_date"@),
            "$gte"@,
            "$lte"@,
            match q.start_date_start { Some(d) => Some(BsonModel::DateTime(d.millis)), None => None },
            match q.start_date_end { Some(d) => Some(BsonModel::DateTime(d.millis)), None => None },
        ),
        range_value_ok(
            value_under(q.spec_to_query(), "end_date"@),
            "$gte"@,
            "$lte"@,
            match q.end_date_start { Some(d) => Some(BsonModel::DateTime(d.millis)), None => None },
            match q.end_date_end { Some(d) => Some(BsonModel::DateTime(d.millis)), None => None },
        ),
        range_value_ok(
            value_under(q.spec_to_query(), "duration_day"@),
            "$gte"@,
            "$lte"@,
            match q.duration_day_min { Some(n) => Some(BsonModel::Int32(n)), None => None },
            match q.duration_day_max { Some(n) => Some(BsonModel::Int32(n)), None => None },
        ),
        range_value_ok(
            value_under(q.spec_to_query(), "num_legs"@),
            "$gte"@,
            "$lte"@,
            match q.num_legs_min { Some(n) => Some(BsonModel::Int32(n)), None => None },
            match q.num_legs_max { Some(n) => Some(BsonModel::Int32(n)), None => None },
        ),
        value_under(q.spec_to_query(), "odan"@) == match q.odan { Some(v) => Some(BsonModel::Boolean(v)), None => None },
        value_under(q.spec_to_query(), "red_eye"@) == match q.red_eye { Some(v) => Some(BsonModel::Boolean(v)), None => None },
        value_under(q.spec_to_query(), "training"@) == match q.training { Some(v) => Some(BsonModel::Boolean(v)), None => None },
        value_under(q.spec_to_query(), "satellite"@) == match q.satellite { Some(v) => Some(BsonModel::Boolean(v)), None => None },
        value_under(q.spec_to_query(), "observation_trip"@) == match q.observation_trip { Some(v) => Some(BsonModel::Boolean(v)), None => None },
{
    lemma_filter_document_values(q);
}

} // verus!
