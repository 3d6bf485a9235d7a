//! The two endpoints' query builders, and what they share.

pub mod sequence_query;
pub mod sequence_search;
pub mod search_filters;
pub mod filter_fields;
pub mod search_fields;

use vstd::prelude::*;
use crate::api::sequence_query::SequenceQuery;
use crate::api::sequence_search::{
    SequenceSearch, equals_clause, opt_clause, opt_equals_clause, opt_text_clause, text_clause,
};
use crate::util::document::{BsonModel, keys_of, opt_entry};
use crate::util::{
    opt_bool_model, opt_date_model, opt_doc_model, opt_int_model, opt_oid_model, opt_string_model,
    spec_query_range, spec_search_range, lemma_ranges_agree,
};

verus! {

/// The value of the last entry under `key`, if any.
pub open spec fn value_under(e: Seq<(Seq<char>, BsonModel)>, key: Seq<char>) -> Option<BsonModel>
    decreases e.len(),
{
    if e.len() == 0 {
        None
    } else if e.last().0 == key {
        Some(e.last().1)
    } else {
        value_under(e.drop_last(), key)
    }
}

/// The field that a search clause constrains: the `path` of its operator.
pub open spec fn clause_path(c: Seq<(Seq<char>, BsonModel)>) -> Seq<char> {
    match c[0].1 {
        BsonModel::Document(operator) => match value_under(operator, "path"@) {
            Some(BsonModel::String(p)) => p,
            _ => Seq::empty(),
        },
        _ => Seq::empty(),
    }
}

/// The fields that a list of search clauses constrains, in order.
pub open spec fn clause_paths(cs: Seq<Seq<(Seq<char>, BsonModel)>>) -> Seq<Seq<char>> {
    cs.map_values(|c: Seq<(Seq<char>, BsonModel)>| clause_path(c))
}

/// A query and a search made of the same parameters.
pub open spec fn same_parameters(q: SequenceQuery, s: SequenceSearch) -> bool {
    &&& q.airline_code == s.airline_code
    &&& q.contract_month == s.contract_month
    &&& q.seq_type == s.seq_type
    &&& q.base == s.base
    &&& q._id == s._id
    &&& q.base_indicator == s.base_indicator
    &&& q.start_date_start == s.start_date_start
    &&& q.start_date_end == s.start_date_end
    &&& q.end_date_start == s.end_date_start
    &&& q.end_date_end == s.end_date_end
    &&& q.duration_day_min == s.duration_day_min
    &&& q.duration_day_max == s.duration_day_max
    &&& q.num_legs_min == s.num_legs_min
    &&& q.num_legs_max == s.num_legs_max
    &&& q.odan == s.odan
    &&& q.red_eye == s.red_eye
    &&& q.training == s.training
    &&& q.satellite == s.satellite
    &&& q.observation_trip == s.observation_trip
}

proof fn lemma_text_path(path: Seq<char>, query: Seq<char>)
    ensures
        clause_path(text_clause(path, query)) == path,
{
    reveal_strlit("path");
    reveal_strlit("query");
    let inner = seq![("path"@, BsonModel::String(path)), ("query"@, BsonModel::String(query))];
    assert("path"@.len() != "query"@.len());
    assert(inner.drop_last() =~= seq![("path"@, BsonModel::String(path))]);
    assert(inner.drop_last().drop_last() =~= Seq::<(Seq<char>, BsonModel)>::empty());
    reveal_with_fuel(value_under, 2);
    assert(value_under(inner, "path"@) == Some(BsonModel::String(path)));
}

proof fn lemma_equals_path(path: Seq<char>, value: BsonModel)
    ensures
        clause_path(equals_clause(path, value)) == path,
{
    reveal_strlit("path");
    reveal_strlit("value");
    let inner = seq![("path"@, BsonModel::String(path)), ("value"@, value)];
    assert("path"@.len() != "value"@.len());
    assert(inner.drop_last() =~= seq![("path"@, BsonModel::String(path))]);
    reveal_with_fuel(value_under, 2);
    assert(value_under(inner, "path"@) == Some(BsonModel::String(path)));
}

proof fn lemma_range_path(path: Seq<char>, start: Option<BsonModel>, end: Option<BsonModel>)
    requires
        spec_search_range(path, start, end) is Some,
    ensures
        clause_path(spec_search_range(path, start, end)->0) == path,
{
}

/// One optional filter: the filter document has its field exactly when the
/// search has a clause on that field.
proof fn lemma_piece(
    key: Seq<char>,
    v: Option<BsonModel>,
    c: Option<Seq<(Seq<char>, BsonModel)>>,
)
    requires
        v is Some <==> c is Some,
        c is Some ==> clause_path(c->0) == key,
    ensures
        keys_of(opt_entry(key, v)) == clause_paths(opt_clause(c)),
{
    assert(keys_of(opt_entry(key, v)) =~= clause_paths(opt_clause(c)));
}

proof fn lemma_join(
    a: Seq<(Seq<char>, BsonModel)>,
    b: Seq<Seq<(Seq<char>, BsonModel)>>,
    x: Seq<(Seq<char>, BsonModel)>,
    y: Seq<Seq<(Seq<char>, BsonModel)>>,
)
    requires
        keys_of(a) == clause_paths(b),
        keys_of(x) == clause_paths(y),
    ensures
        keys_of(a + x) == clause_paths(b + y),
{
    assert(keys_of(a + x) =~= keys_of(a) + keys_of(x));
    assert(clause_paths(b + y) =~= clause_paths(b) + clause_paths(y));
}

proof fn lemma_text_piece(key: Seq<char>, o: Option<String>)
    ensures
        keys_of(opt_entry(key, opt_string_model(o))) == clause_paths(
            opt_clause(opt_text_clause(key, o)),
        ),
{
    if let Some(t) = o {
        lemma_text_path(key, t@);
    }
    lemma_piece(key, opt_string_model(o), opt_text_clause(key, o));
}

proof fn lemma_equals_piece(key: Seq<char>, v: Option<BsonModel>)
    ensures
        keys_of(opt_entry(key, v)) == clause_paths(opt_clause(opt_equals_clause(key, v))),
{
    if let Some(x) = v {
        lemma_equals_path(key, x);
    }
    lemma_piece(key, v, opt_equals_clause(key, v));
}

proof fn lemma_range_piece(key: Seq<char>, start: Option<BsonModel>, end: Option<BsonModel>)
    ensures
        keys_of(opt_entry(key, opt_doc_model(spec_query_range(start, end)))) == clause_paths(
            opt_clause(spec_search_range(key, start, end)),
        ),
{
    lemma_ranges_agree(key, start, end);
    if spec_search_range(key, start, end) is Some {
        lemma_range_path(key, start, end);
    }
    lemma_piece(key, opt_doc_model(spec_query_range(start, end)), spec_search_range(key, start, end));
}

/// A query and a search made of the same parameters constrain the same
/// fields in the same order: the fields of the filter document are the paths
/// of the search's clauses.
#[verifier::spinoff_prover]
#[verifier::rlimit(60)]
pub proof fn lemma_query_and_search_constrain_same_fields(q: SequenceQuery, s: SequenceSearch)
    requires
        same_parameters(q, s),
    ensures
        keys_of(q.spec_to_query()) == clause_paths(s.spec_musts()),
{
    let p0 = seq![
        ("airline_code"@, BsonModel::String(q.airline_code@)),
        ("contract_month"@, BsonModel::String(q.contract_month@)),
        ("seq_type"@, BsonModel::String(q.seq_type@)),
        ("base"@, BsonModel::String(q.base@)),
    ];
    let c0 = seq![
        text_clause("airline_code"@, s.airline_code@),
        text_clause("contract_month"@, s.contract_month@),
        text_clause("seq_type"@, s.seq_type@),
        text_clause("base"@, s.base@),
    ];
    lemma_text_path("airline_code"@, s.airline_code@);
    lemma_text_path("contract_month"@, s.contract_month@);
    lemma_text_path("seq_type"@, s.seq_type@);
    lemma_text_path("base"@, s.base@);
    assert(keys_of(p0) =~= clause_paths(c0));

    let p1 = opt_entry("base_indicator"@, opt_string_model(q.base_indicator));
    let c1 = opt_clause(opt_text_clause("base_indicator"@, s.base_indicator));
    lemma_text_piece("base_indicator"@, s.base_indicator);
    lemma_join(p0, c0, p1, c1);

    let p2 = opt_entry("_id"@, opt_oid_model(q._id));
    let c2 = opt_clause(opt_equals_clause("_id"@, opt_oid_model(s._id)));
    lemma_equals_piece("_id"@, opt_oid_model(s._id));
    lemma_join(p0 + p1, c0 + c1, p2, c2);

    let sd_s = opt_date_model(q.start_date_start);
    let sd_e = opt_date_model(q.start_date_end);
    let p3 = opt_entry("start_date"@, opt_doc_model(spec_query_range(sd_s, sd_e)));
    let c3 = opt_clause(spec_search_range("start_date"@, sd_s, sd_e));
    lemma_range_piece("start_date"@, sd_s, sd_e);
    lemma_join(p0 + p1 + p2, c0 + c1 + c2, p3, c3);

    let ed_s = opt_date_model(q.end_date_start);
    let ed_e = opt_date_model(q.end_date_end);
    let p4 = opt_entry("end_date"@, opt_doc_model(spec_query_range(ed_s, ed_e)));
    let c4 = opt_clause(spec_search_range("end_date"@, ed_s, ed_e));
    lemma_range_piece("end_date"@, ed_s, ed_e);
    lemma_join(p0 + p1 + p2 + p3, c0 + c1 + c2 + c3, p4, c4);

    let du_s = opt_int_model(q.duration_day_min);
    let du_e = opt_int_model(q.duration_day_max);
    let p5 = opt_entry("duration_day"@, opt_doc_model(spec_query_range(du_s, du_e)));
    let c5 = opt_clause(spec_search_range("duration_day"@, du_s, du_e));
    lemma_range_piece("duration_day"@, du_s, du_e);
    lemma_join(p0 + p1 + p2 + p3 + p4, c0 + c1 + c2 + c3 + c4, p5, c5);

    let nl_s = opt_int_model(q.num_legs_min);
    let nl_e = opt_int_model(q.num_legs_max);
    let p6 = opt_entry("num_legs"@, opt_doc_model(spec_query_range(nl_s, nl_e)));
    let c6 = opt_clause(spec_search_range("num_legs"@, nl_s, nl_e));
    lemma_range_piece("num_legs"@, nl_s, nl_e);
    lemma_join(p0 + p1 + p2 + p3 + p4 + p5, c0 + c1 + c2 + c3 + c4 + c5, p6, c6);

    let p7 = opt_entry("odan"@, opt_bool_model(q.odan));
    let c7 = opt_clause(opt_equals_clause("odan"@, opt_bool_model(s.odan)));
    lemma_equals_piece("odan"@, opt_bool_model(s.odan));
    lemma_join(p0 + p1 + p2 + p3 + p4 + p5 + p6, c0 + c1 + c2 + c3 + c4 + c5 + c6, p7, c7);

    let p8 = opt_entry("red_eye"@, opt_bool_model(q.red_eye));
    let c8 = opt_clause(opt_equals_clause("red_eye"@, opt_bool_model(s.red_eye)));
    lemma_equals_piece("red_eye"@, opt_bool_model(s.red_eye));
    lemma_join(
        p0 + p1 + p2 + p3 + p4 + p5 + p6 + p7,
        c0 + c1 + c2 + c3 + c4 + c5 + c6 + c7,
        p8,
        c8,
    );

    let p9 = opt_entry("training"@, opt_bool_model(q.training));
    let c9 = opt_clause(opt_equals_clause("training"@, opt_bool_model(s.training)));
    lemma_equals_piece("training"@, opt_bool_model(s.training));
    lemma_join(
        p0 + p1 + p2 + p3 + p4 + p5 + p6 + p7 + p8,
        c0 + c1 + c2 + c3 + c4 + c5 + c6 + c7 + c8,
        p9,
        c9,
    );

    let p10 = opt_entry("satellite"@, opt_bool_model(q.satellite));
    let c10 = opt_clause(opt_equals_clause("satellite"@, opt_bool_model(s.satellite)));
    lemma_equals_piece("satellite"@, opt_bool_model(s.satellite));
    lemma_join(
        p0 + p1 + p2 + p3 + p4 + p5 + p6 + p7 + p8 + p9,
        c0 + c1 + c2 + c3 + c4 + c5 + c6 + c7 + c8 + c9,
        p10,
        c10,
    );

    let p11 = opt_entry("observation_trip"@, opt_bool_model(q.observation_trip));
    let c11 = opt_clause(opt_equals_clause("observation_trip"@, opt_bool_model(s.observation_trip)));
    lemma_equals_piece("observation_trip"@, opt_bool_model(s.observation_trip));
    lemma_join(
        p0 + p1 + p2 + p3 + p4 + p5 + p6 + p7 + p8 + p9 + p10,
        c0 + c1 + c2 + c3 + c4 + c5 + c6 + c7 + c8 + c9 + c10,
        p11,
        c11,
    );
}

} // verus!
