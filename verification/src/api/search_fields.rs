//! What each field of a request becomes in the search: the clause on the
//! field's path carries exactly the request's value or bounds, and no path
//! has two clauses.

use vstd::prelude::*;
use crate::api::{
    clause_path, clause_paths, same_parameters, value_under,
    lemma_query_and_search_constrain_same_fields, lemma_text_path, lemma_equals_path,
    lemma_range_path,
};
use crate::api::filter_fields::{
    lemma_filter_document_values, lemma_value_under_concat, lemma_bounds_ok,
};
use crate::api::search_filters::{
    clauses_before, filter_given, filter_groups, filter_index, join_upto,
    lemma_clause_given, lemma_filter_at_index, lemma_musts_are_joined,
};
use crate::api::sequence_query::SequenceQuery;
use crate::api::sequence_search::{
    OptionalFilter, SequenceSearch, equals_clause, text_clause, opt_clause,
};
use crate::util::document::{BsonModel, keys_of};
use crate::util::{bounds, opt_date_model, opt_int_model, spec_search_range};

verus! {

/// A `text` clause on `path` matching `text`: its operator document holds
/// exactly the path and the text.
pub open spec fn text_clause_ok(c: Seq<(Seq<char>, BsonModel)>, path: Seq<char>, text: Seq<char>) -> bool {
    &&& c.len() == 1
    &&& c[0].0 == "text"@
    &&& c[0].1 matches BsonModel::Document(e)
    &&& value_under(e, "path"@) == Some(BsonModel::String(path))
    &&& value_under(e, "query"@) == Some(BsonModel::String(text))
    &&& forall|i: int| 0 <= i < e.len() ==> #[trigger] e[i].0 == "path"@ || e[i].0 == "query"@
}

/// An `equals` clause on `path` with value `v`: its operator document holds
/// exactly the path and the value.
pub open spec fn equals_clause_ok(c: Seq<(Seq<char>, BsonModel)>, path: Seq<char>, v: BsonModel) -> bool {
    &&& c.len() == 1
    &&& c[0].0 == "equals"@
    &&& c[0].1 matches BsonModel::Document(e)
    &&& value_under(e, "path"@) == Some(BsonModel::String(path))
    &&& value_under(e, "value"@) == Some(v)
    &&& forall|i: int| 0 <= i < e.len() ==> #[trigger] e[i].0 == "path"@ || e[i].0 == "value"@
}

/// A `range` clause on `path`: its operator document holds the path, the
/// lower bound under `gte` and the upper bound under `lte`, each exactly when
/// given, and nothing else.
pub open spec fn range_clause_ok(
    c: Seq<(Seq<char>, BsonModel)>,
    path: Seq<char>,
    lower: Option<BsonModel>,
    upper: Option<BsonModel>,
) -> bool {
    &&& c.len() == 1
    &&& c[0].0 == "range"@
    &&& c[0].1 matches BsonModel::Document(e)
    &&& value_under(e, "path"@) == Some(BsonModel::String(path))
    &&& value_under(e, "gte"@) == lower
    &&& value_under(e, "lte"@) == upper
    &&& forall|i: int|
        0 <= i < e.len() ==> #[trigger] e[i].0 == "path"@ || e[i].0 == "gte"@ || e[i].0 == "lte"@
}

/// No clause is on `path`.
pub open spec fn no_clause_on(m: Seq<Seq<(Seq<char>, BsonModel)>>, path: Seq<char>) -> bool {
    forall|i: int| 0 <= i < m.len() ==> #[trigger] clause_path(m[i]) != path
}

/// With a text, some clause on `path` is the `text` clause of that text;
/// without, no clause is on `path`.
pub open spec fn constrains_text(
    m: Seq<Seq<(Seq<char>, BsonModel)>>,
    path: Seq<char>,
    text: Option<Seq<char>>,
) -> bool {
    match text {
        Some(t) => exists|i: int|
            0 <= i < m.len() && #[trigger] clause_path(m[i]) == path && text_clause_ok(m[i], path, t),
        None => no_clause_on(m, path),
    }
}

/// With a value, some clause on `path` is the `equals` clause of that value;
/// without, no clause is on `path`.
pub open spec fn constrains_equals(
    m: Seq<Seq<(Seq<char>, BsonModel)>>,
    path: Seq<char>,
    v: Option<BsonModel>,
) -> bool {
    match v {
        Some(x) => exists|i: int|
            0 <= i < m.len() && #[trigger] clause_path(m[i]) == path && equals_clause_ok(m[i], path, x),
        None => no_clause_on(m, path),
    }
}

/// With a bound, some clause on `path` is the `range` clause of exactly the
/// given bounds; with none, no clause is on `path`.
pub open spec fn constrains_range(
    m: Seq<Seq<(Seq<char>, BsonModel)>>,
    path: Seq<char>,
    lower: Option<BsonModel>,
    upper: Option<BsonModel>,
) -> bool {
    if lower is None && upper is None {
        no_clause_on(m, path)
    } else {
        exists|i: int|
            0 <= i < m.len() && #[trigger] clause_path(m[i]) == path && range_clause_ok(
                m[i],
                path,
                lower,
                upper,
            )
    }
}

/// The optional model of an optional string.
pub open spec fn opt_text(o: Option<String>) -> Option<Seq<char>> {
    match o {
        Some(t) => Some(t@),
        None => None,
    }
}

/// The query made of a search's parameters.
spec fn query_of(s: SequenceSearch) -> SequenceQuery {
    SequenceQuery {
        airline_code: s.airline_code,
        contract_month: s.contract_month,
        seq_type: s.seq_type,
        base: s.base,
        _id: s._id,
        base_indicator: s.base_indicator,
        start_date_start: s.start_date_start,
        start_date_end: s.start_date_end,
        end_date_start: s.end_date_start,
        end_date_end: s.end_date_end,
        duration_day_min: s.duration_day_min,
        duration_day_max: s.duration_day_max,
        num_legs_min: s.num_legs_min,
        num_legs_max: s.num_legs_max,
        odan: s.odan,
        red_eye: s.red_eye,
        training: s.training,
        satellite: s.satellite,
        observation_trip: s.observation_trip,
    }
}

proof fn lemma_value_under_none(e: Seq<(Seq<char>, BsonModel)>, k: Seq<char>)
    requires
        value_under(e, k) is None,
    ensures
        forall|i: int| 0 <= i < e.len() ==> #[trigger] e[i].0 != k,
    decreases e.len(),
{
    if e.len() > 0 {
        lemma_value_under_none(e.drop_last(), k);
        assert forall|i: int| 0 <= i < e.len() implies #[trigger] e[i].0 != k by {
            if i < e.len() - 1 {
                assert(e.drop_last()[i] == e[i]);
            }
        }
    }
}

/// The search's clause paths are the filter document's keys, so they come
/// once each, and a field the filter leaves out has no clause.
#[verifier::spinoff_prover]
#[verifier::rlimit(60)]
proof fn lemma_paths(s: SequenceSearch)
    ensures
        clause_paths(s.spec_musts()).no_duplicates(),
        forall|p: Seq<char>| #![auto]
            value_under(query_of(s).spec_to_query(), p) is None ==> no_clause_on(s.spec_musts(), p),
{
    let q = query_of(s);
    lemma_query_and_search_constrain_same_fields(q, s);
    lemma_filter_document_values(q);
    let m = s.spec_musts();
    let d = q.spec_to_query();
    assert forall|p: Seq<char>| #![auto] value_under(d, p) is None implies no_clause_on(m, p) by {
        lemma_value_under_none(d, p);
        assert forall|i: int| 0 <= i < m.len() implies #[trigger] clause_path(m[i]) != p by {
            assert(clause_paths(m)[i] == clause_path(m[i]));
            assert(keys_of(d)[i] == d[i].0);
        }
    }
}

proof fn lemma_join_at<T>(acc: Seq<T>, g: Seq<Seq<T>>, k: int, n: nat)
    requires
        0 <= k < n <= g.len(),
        g[k].len() == 1,
    ensures
        join_upto(acc, g, n).len() > join_upto(acc, g, k as nat).len(),
        join_upto(acc, g, n)[join_upto(acc, g, k as nat).len() as int] == g[k][0],
    decreases n,
{
    if n > k + 1 {
        lemma_join_at(acc, g, k, (n - 1) as nat);
    }
}

proof fn lemma_join_prefix<T>(acc: Seq<T>, g: Seq<Seq<T>>, n: nat, i: int)
    requires
        0 <= i < acc.len(),
        n <= g.len(),
    ensures
        join_upto(acc, g, n).len() > i,
        join_upto(acc, g, n)[i] == acc[i],
    decreases n,
{
    if n > 0 {
        lemma_join_prefix(acc, g, (n - 1) as nat, i);
    }
}

/// A given optional filter's clause stands in the search.
proof fn lemma_clause_in_musts(s: SequenceSearch, f: OptionalFilter)
    requires
        filter_given(s, f),
    ensures
        s.clause_of(f) is Some,
        0 <= clauses_before(s, f).len() < s.spec_musts().len(),
        s.spec_musts()[clauses_before(s, f).len() as int] == s.clause_of(f)->0,
{
    lemma_clause_given(s, f);
    lemma_filter_at_index(f);
    lemma_musts_are_joined(s);
    let k = filter_index(f);
    assert(filter_groups(s)[k] == opt_clause(s.clause_of(f)));
    lemma_join_at(s.required_clauses(), filter_groups(s), k, 11);
}

proof fn lemma_text_ok(path: Seq<char>, text: Seq<char>)
    ensures
        text_clause_ok(text_clause(path, text), path, text),
{
    reveal_strlit("path");
    reveal_strlit("query");
    assert("path"@.len() != "query"@.len());
    reveal_with_fuel(value_under, 3);
}

proof fn lemma_equals_ok(path: Seq<char>, v: BsonModel)
    ensures
        equals_clause_ok(equals_clause(path, v), path, v),
{
    reveal_strlit("path");
    reveal_strlit("value");
    assert("path"@.len() != "value"@.len());
    reveal_with_fuel(value_under, 3);
}

/// The search range of two bounds on `path` is a `range` clause holding the
/// path, the lower bound under `gte` and the upper bound under `lte`, each
/// exactly when given, and nothing else.
pub proof fn lemma_range_ok(path: Seq<char>, lower: Option<BsonModel>, upper: Option<BsonModel>)
    requires
        lower is Some || upper is Some,
    ensures
        spec_search_range(path, lower, upper) is Some,
        range_clause_ok(spec_search_range(path, lower, upper)->0, path, lower, upper),
{
    reveal_strlit("path");
    reveal_strlit("gte");
    reveal_strlit("lte");
    assert("path"@.len() != "gte"@.len() && "path"@.len() != "lte"@.len());
    assert("gte"@[0] != "lte"@[0]);
    let b = bounds("gte"@, "lte"@, lower, upper);
    let tail = seq![("path"@, BsonModel::String(path))];
    lemma_bounds_ok("gte"@, "lte"@, lower, upper);
    lemma_value_under_concat(b, tail, "gte"@);
    lemma_value_under_concat(b, tail, "lte"@);
    lemma_value_under_concat(b, tail, "path"@);
    reveal_with_fuel(value_under, 2);
    let e = b + tail;
    assert forall|i: int| 0 <= i < e.len() implies #[trigger] e[i].0 == "path"@ || e[i].0 == "gte"@
        || e[i].0 == "lte"@ by {
        if i < b.len() {
            assert(b[i] == e[i]);
        }
    }
}

/// Reading the search by path gives back the request: the required fields
/// each have their `text` clause; the base indicator its `text` clause, the
/// id and each flag their `equals` clause of the given value (false as well
/// as true), each date or count its `range` clause of that field's own lower
/// bound under `gte` and upper bound under `lte`, exactly when given; a field
/// not given has no clause; and no path has two clauses.
#[verifier::spinoff_prover]
#[verifier::rlimit(60)]
pub proof fn lemma_search_clause_fields(s: SequenceSearch)
    ensures
        clause_paths(s.spec_musts()).no_duplicates(),
        constrains_text(s.spec_musts(), "airline_code"@, Some(s.airline_code@)),
        constrains_text(s.spec_musts(), "contract_month"@, Some(s.contract_month@)),
        constrains_text(s.spec_musts(), "seq_type"@, Some(s.seq_type@)),
        constrains_text(s.spec_musts(), "base"@, Some(s.base@)),
        constrains_text(s.spec_musts(), "base_indicator"@, match s.base_indicator { Some(t) => Some(t@), None => None }),
        constrains_equals(
            s.spec_musts(),
            "_id"@,
            match s._id {
                Some(b) => Some(BsonModel::ObjectId(b@)),
                None => None,
            },
        ),
        constrains_range(
            s.spec_musts(),
            "start_date"@,
            match s.start_date_start { Some(d) => Some(BsonModel::DateTime(d.millis)), None => None },
            match s.start_date_end { Some(d) => Some(BsonModel::DateTime(d.millis)), None => None },
        ),
        constrains_range(
            s.spec_musts(),
            "end_date"@,
            match s.end_date_start { Some(d) => Some(BsonModel::DateTime(d.millis)), None => None },
            match s.end_date_end { Some(d) => Some(BsonModel::DateTime(d.millis)), None => None },
        ),
        constrains_range(
            s.spec_musts(),
            "duration_day"@,
            match s.duration_day_min { Some(n) => Some(BsonModel::Int32(n)), None => None },
            match s.duration_day_max { Some(n) => Some(BsonModel::Int32(n)), None => None },
        ),
        constrains_range(
            s.spec_musts(),
            "num_legs"@,
            match s.num_legs_min { Some(n) => Some(BsonModel::Int32(n)), None => None },
            match s.num_legs_max { Some(n) => Some(BsonModel::Int32(n)), None => None },
        ),
        constrains_equals(
            s.spec_musts(),
            "odan"@,
            match s.odan {
                Some(v) => Some(BsonModel::Boolean(v)),
                None => None,
            },
        ),
        constrains_equals(
            s.spec_musts(),
            "red_eye"@,
            match s.red_eye {
                Some(v) => Some(BsonModel::Boolean(v)),
                None => None,
            },
        ),
        constrains_equals(
            s.spec_musts(),
            "training"@,
            match s.training {
                Some(v) => Some(BsonModel::Boolean(v)),
                None => None,
            },
        ),
        constrains_equals(
            s.spec_musts(),
            "satellite"@,
            match s.satellite {
                Some(v) => Some(BsonModel::Boolean(v)),
                None => None,
            },
        ),
        constrains_equals(
            s.spec_musts(),
            "observation_trip"@,
            match s.observation_trip {
                Some(v) => Some(BsonModel::Boolean(v)),
                None => None,
            },
        ),
{
    let m = s.spec_musts();
    let q = query_of(s);
    lemma_paths(s);
    lemma_filter_document_values(q);
    lemma_musts_are_joined(s);
    let req = s.required_clauses();
    let g = filter_groups(s);
    // The required fields.
    lemma_join_prefix(req, g, 11, 0);
    lemma_join_prefix(req, g, 11, 1);
    lemma_join_prefix(req, g, 11, 2);
    lemma_join_prefix(req, g, 11, 3);
    lemma_text_path("airline_code"@, s.airline_code@);
    lemma_text_path("contract_month"@, s.contract_month@);
    lemma_text_path("seq_type"@, s.seq_type@);
    lemma_text_path("base"@, s.base@);
    lemma_text_ok("airline_code"@, s.airline_code@);
    lemma_text_ok("contract_month"@, s.contract_month@);
    lemma_text_ok("seq_type"@, s.seq_type@);
    lemma_text_ok("base"@, s.base@);
    assert(clause_path(m[0]) == "airline_code"@ && text_clause_ok(m[0], "airline_code"@, s.airline_code@));
    assert(clause_path(m[1]) == "contract_month"@ && text_clause_ok(m[1], "contract_month"@, s.contract_month@));
    assert(clause_path(m[2]) == "seq_type"@ && text_clause_ok(m[2], "seq_type"@, s.seq_type@));
    assert(clause_path(m[3]) == "base"@ && text_clause_ok(m[3], "base"@, s.base@));
    // The base indicator.
    if let Some(t) = s.base_indicator {
        let f = OptionalFilter::BaseIndicator;
        lemma_clause_in_musts(s, f);
        let i = clauses_before(s, f).len() as int;
        lemma_text_path("base_indicator"@, t@);
        lemma_text_ok("base_indicator"@, t@);
        assert(clause_path(m[i]) == "base_indicator"@ && text_clause_ok(m[i], "base_indicator"@, t@));
    }
    // The id.
    if let Some(b) = s._id {
        let f = OptionalFilter::Id;
        lemma_clause_in_musts(s, f);
        let i = clauses_before(s, f).len() as int;
        lemma_equals_path("_id"@, BsonModel::ObjectId(b@));
        lemma_equals_ok("_id"@, BsonModel::ObjectId(b@));
        assert(clause_path(m[i]) == "_id"@ && equals_clause_ok(m[i], "_id"@, BsonModel::ObjectId(b@)));
    }
    lemma_range_field(s, OptionalFilter::StartDate, "start_date"@, opt_date_model(s.start_date_start), opt_date_model(s.start_date_end));
    lemma_range_field(s, OptionalFilter::EndDate, "end_date"@, opt_date_model(s.end_date_start), opt_date_model(s.end_date_end));
    lemma_range_field(s, OptionalFilter::DurationDay, "duration_day"@, opt_int_model(s.duration_day_min), opt_int_model(s.duration_day_max));
    lemma_range_field(s, OptionalFilter::NumLegs, "num_legs"@, opt_int_model(s.num_legs_min), opt_int_model(s.num_legs_max));
    lemma_flag_field(s, OptionalFilter::Odan, "odan"@, s.odan);
    lemma_flag_field(s, OptionalFilter::RedEye, "red_eye"@, s.red_eye);
    lemma_flag_field(s, OptionalFilter::Training, "training"@, s.training);
    lemma_flag_field(s, OptionalFilter::Satellite, "satellite"@, s.satellite);
    lemma_flag_field(s, OptionalFilter::ObservationTrip, "observation_trip"@, s.observation_trip);
}

/// The pipeline is one `$search` stage over the `default` index whose
/// compound operator requires exactly the search's clauses, in order.
pub proof fn lemma_pipeline_shape(s: SequenceSearch)
    ensures
        s.spec_to_search_pipeline().len() == 1,
        keys_of(s.spec_to_search_pipeline()[0]) == seq!["$search"@],
        s.spec_to_search_pipeline()[0][0].1 matches BsonModel::Document(stage) && keys_of(stage)
            == seq!["index"@, "compound"@] && value_under(stage, "index"@) == Some(
            BsonModel::String("default"@),
        ) && value_under(stage, "compound"@) == Some(
            BsonModel::Document(
                seq![
                    ("must"@, BsonModel::Array(
                        s.spec_musts().map_values(
                            |c: Seq<(Seq<char>, BsonModel)>| BsonModel::Document(c),
                        ),
                    )),
                ],
            ),
        ),
{
    reveal_strlit("index");
    reveal_strlit("compound");
    assert("index"@.len() != "compound"@.len());
    reveal_with_fuel(value_under, 3);
    let p = s.spec_to_search_pipeline();
    assert(keys_of(p[0]) =~= seq!["$search"@]);
    if let BsonModel::Document(stage) = p[0][0].1 {
        assert(keys_of(stage) =~= seq!["index"@, "compound"@]);
    }
}

proof fn lemma_range_field(
    s: SequenceSearch,
    f: OptionalFilter,
    path: Seq<char>,
    lower: Option<BsonModel>,
    upper: Option<BsonModel>,
)
    requires
        s.clause_of(f) == spec_search_range(path, lower, upper),
        filter_given(s, f) <==> (lower is Some || upper is Some),
        (lower is None && upper is None) ==> value_under(query_of(s).spec_to_query(), path) is None,
    ensures
        constrains_range(s.spec_musts(), path, lower, upper),
{
    lemma_paths(s);
    if lower is Some || upper is Some {
        lemma_clause_in_musts(s, f);
        let i = clauses_before(s, f).len() as int;
        lemma_range_path(path, lower, upper);
        lemma_range_ok(path, lower, upper);
        assert(clause_path(s.spec_musts()[i]) == path);
    }
}

proof fn lemma_flag_field(s: SequenceSearch, f: OptionalFilter, path: Seq<char>, flag: Option<bool>)
    requires
        s.clause_of(f) == crate::api::sequence_search::opt_equals_clause(
            path,
            crate::util::opt_bool_model(flag),
        ),
        filter_given(s, f) <==> flag is Some,
        flag is None ==> value_under(query_of(s).spec_to_query(), path) is None,
    ensures
        constrains_equals(
            s.spec_musts(),
            path,
            match flag {
                Some(v) => Some(BsonModel::Boolean(v)),
                None => None,
            },
        ),
{
    lemma_paths(s);
    if let Some(v) = flag {
        lemma_clause_in_musts(s, f);
        let i = clauses_before(s, f).len() as int;
        lemma_equals_path(path, BsonModel::Boolean(v));
        lemma_equals_ok(path, BsonModel::Boolean(v));
        assert(clause_path(s.spec_musts()[i]) == path);
    }
}

} // verus!
